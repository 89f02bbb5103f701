//! The descriptions of the program's commands as functions that a chat
//! assistant can call: one function for each command that has no commands
//! below it.
//!
//! The tree of commands is given as [`CommandInfo`]; the parser of the
//! command line that owns the tree is the caller's.

use vstd::prelude::*;
use vstd::string::StringExecFns;
use crate::params::{distinct_names, lemma_merged, lemma_position_of, merged, pairs_to_map, with_pair};
use crate::text::{clone_strings, str_eq, texts};

verus! {

/// An argument of a command, as far as a description needs it.
#[derive(Debug)]
pub struct ArgInfo {
    pub id: String,
    pub help: Option<String>,
    pub possible_values: Vec<String>,
    pub required: bool,
    pub index: Option<usize>,
    pub hidden: bool,
}

/// A command with the commands below it, as far as a description needs it.
#[derive(Debug)]
pub struct CommandInfo {
    pub name: String,
    pub about: Option<String>,
    pub arguments: Vec<ArgInfo>,
    pub subcommands: Vec<CommandInfo>,
}

/// The description of one command as a callable function.
#[derive(Debug)]
pub struct ChatGPTCommand {
    pub cmd_type: String,
    pub function: ChatGPTFunction,
}

/// The function that a command is described as.
#[derive(Debug)]
pub struct ChatGPTFunction {
    pub name: String,
    pub description: String,
    pub parameters: ChatGPTFunctionParams,
}

/// The parameters of a function: an object with one property for each
/// argument, by name.
#[derive(Debug)]
pub struct ChatGPTFunctionParams {
    pub param_type: String,
    pub properties: Vec<(String, ChatGPTFunctionProperty)>,
    pub required: Vec<String>,
}

/// One parameter of a function. What is `None` is left out of what is
/// written.
#[derive(Debug)]
pub struct ChatGPTFunctionProperty {
    pub index: Option<usize>,
    pub description: Option<String>,
    pub enum_values: Option<Vec<String>>,
}

/// One parameter of a function, as plain values.
pub struct PropertyModel {
    pub index: Option<usize>,
    pub description: Option<Seq<char>>,
    pub enum_values: Option<Seq<Seq<char>>>,
}

/// The description of one command, as plain values.
pub struct CommandModel {
    pub cmd_type: Seq<char>,
    pub name: Seq<char>,
    pub description: Seq<char>,
    pub param_type: Seq<char>,
    pub properties: Map<Seq<char>, PropertyModel>,
    pub required: Seq<Seq<char>>,
}

impl View for ChatGPTFunctionProperty {
    type V = PropertyModel;

    open spec fn view(&self) -> PropertyModel {
        PropertyModel {
            index: self.index,
            description: match self.description {
                Some(text) => Some(text@),
                None => None,
            },
            enum_values: match self.enum_values {
                Some(values) => Some(texts(values@)),
                None => None,
            },
        }
    }
}

/// The properties of `properties` as plain values, in order.
pub open spec fn property_models(properties: Seq<(String, ChatGPTFunctionProperty)>) -> Seq<
    (Seq<char>, PropertyModel),
> {
    Seq::new(properties.len(), |i: int| (properties[i].0@, properties[i].1@))
}

impl View for ChatGPTCommand {
    type V = CommandModel;

    open spec fn view(&self) -> CommandModel {
        CommandModel {
            cmd_type: self.cmd_type@,
            name: self.function.name@,
            description: self.function.description@,
            param_type: self.function.parameters.param_type@,
            properties: pairs_to_map(property_models(self.function.parameters.properties@)),
            required: texts(self.function.parameters.required@),
        }
    }
}

impl ChatGPTCommand {
    /// No property is named twice.
    pub open spec fn wf(self) -> bool {
        distinct_names(property_models(self.function.parameters.properties@))
    }
}

/// Whether the argument shows in a description: it is not hidden, and it
/// is not the argument that asks for help.
pub open spec fn is_described(arg: ArgInfo) -> bool {
    !arg.hidden && arg.id@ != "help"@
}

/// The parameter that stands for the argument: its help as the
/// description, its possible values as the values to choose from where it
/// has any, its position where it has one.
pub open spec fn property_of(arg: ArgInfo) -> PropertyModel {
    PropertyModel {
        index: arg.index,
        description: match arg.help {
            Some(text) => Some(text@),
            None => None,
        },
        enum_values: if arg.possible_values@.len() == 0 {
            None
        } else {
            Some(texts(arg.possible_values@))
        },
    }
}

/// The names and parameters of the arguments that show, in order.
pub open spec fn described_pairs(args: Seq<ArgInfo>) -> Seq<(Seq<char>, PropertyModel)>
    decreases args.len(),
{
    if args.len() == 0 {
        Seq::empty()
    } else if is_described(args.last()) {
        described_pairs(args.drop_last()).push((args.last().id@, property_of(args.last())))
    } else {
        described_pairs(args.drop_last())
    }
}

/// The parameters that stand for the arguments that show, by name; of two
/// arguments with one name the later one stays.
pub open spec fn properties_of(args: Seq<ArgInfo>) -> Map<Seq<char>, PropertyModel> {
    pairs_to_map(described_pairs(args))
}

/// The names of the arguments that show and are required, in order.
pub open spec fn required_of(args: Seq<ArgInfo>) -> Seq<Seq<char>>
    decreases args.len(),
{
    if args.len() == 0 {
        Seq::empty()
    } else if is_described(args.last()) && args.last().required {
        required_of(args.drop_last()).push(args.last().id@)
    } else {
        required_of(args.drop_last())
    }
}

/// The description of the command `cmd` that stands below `path`.
pub open spec fn command_model(cmd: CommandInfo, path: Seq<char>) -> CommandModel {
    CommandModel {
        cmd_type: "function"@,
        name: path + cmd.name@,
        description: match cmd.about {
            Some(text) => text@,
            None => "No Description"@,
        },
        param_type: "object"@,
        properties: properties_of(cmd.arguments@),
        required: required_of(cmd.arguments@),
    }
}

/// The path below which the commands of the command `name` stand, where
/// `name` itself stands below `prefix`: the program itself adds nothing, any
/// other command adds its name and an underscore.
pub open spec fn children_prefix(name: Seq<char>, prefix: Seq<char>) -> Seq<char> {
    if name == "aerial-utils"@ {
        Seq::empty()
    } else {
        prefix + name + "_"@
    }
}

/// The descriptions of the commands below `cmd`, which stands below
/// `prefix`, in order. A command that has commands below it is described by
/// those; the command that asks for help is left out.
pub open spec fn commands_of(cmd: CommandInfo, prefix: Seq<char>) -> Seq<CommandModel>
    decreases cmd, cmd.subcommands@.len() + 1,
{
    commands_of_list(cmd, cmd.subcommands@.len(), children_prefix(cmd.name@, prefix))
}

/// The descriptions of the first `n` commands below `cmd`, each of which
/// stands below `prefix`.
pub open spec fn commands_of_list(cmd: CommandInfo, n: nat, prefix: Seq<char>) -> Seq<CommandModel>
    decreases cmd, n,
{
    if n == 0 || n > cmd.subcommands@.len() {
        Seq::empty()
    } else {
        let rest = commands_of_list(cmd, (n - 1) as nat, prefix);
        let last = cmd.subcommands@[n - 1];
        if last.name@ == "help"@ {
            rest
        } else if last.subcommands@.len() > 0 {
            rest + commands_of(last, prefix)
        } else {
            rest.push(command_model(last, prefix))
        }
    }
}

/// The descriptions of `commands` as plain values, in order.
pub open spec fn command_models(commands: Seq<ChatGPTCommand>) -> Seq<CommandModel> {
    Seq::new(commands.len(), |i: int| commands[i]@)
}

fn clone_option(text: &Option<String>) -> (r: Option<String>)
    ensures
        r == *text,
{
    match text {
        Some(text) => Some(text.clone()),
        None => None,
    }
}

fn position(properties: &Vec<(String, ChatGPTFunctionProperty)>, name: &str) -> (r: Option<usize>)
    ensures
        match r {
            Some(i) => i < properties.len() && properties[i as int].0@ == name@ && forall|j: int|
                0 <= j < i ==> (#[trigger] properties[j]).0@ != name@,
            None => forall|j: int|
                0 <= j < properties.len() ==> (#[trigger] properties[j]).0@ != name@,
        },
{
    let mut i: usize = 0;
    while i < properties.len()
        invariant
            i <= properties.len(),
            forall|j: int| 0 <= j < i ==> (#[trigger] properties[j]).0@ != name@,
        decreases properties.len() - i,
    {
        if str_eq(properties[i].0.as_str(), name) {
            return Some(i);
        }
        i = i + 1;
    }
    None
}

fn set_property(
    properties: &mut Vec<(String, ChatGPTFunctionProperty)>,
    name: String,
    property: ChatGPTFunctionProperty,
)
    ensures
        property_models(final(properties)@) == with_pair(
            property_models(old(properties)@),
            name@,
            property@,
        ),
{
    let ghost before = property_models(properties@);
    match position(properties, name.as_str()) {
        Some(i) => {
            proof {
                assert forall|j: int| 0 <= j < i implies (#[trigger] before[j]).0 != name@ by {
                    assert(properties[j].0@ != name@);
                }
                assert(before[i as int].0 == name@);
                lemma_position_of(before, name@, i as int);
            }
            properties.set(i, (name, property));
            assert(property_models(properties@) =~= before.update(i as int, (name@, property@)));
        },
        None => {
            proof {
                assert forall|j: int| 0 <= j < before.len() implies (#[trigger] before[j]).0
                    != name@ by {
                    assert(properties[j].0@ != name@);
                }
                lemma_position_of(before, name@, before.len() as int);
            }
            properties.push((name, property));
            assert(property_models(properties@) =~= before.push((name@, property@)));
        },
    }
}

impl ChatGPTCommand {
    /// The description of the command `cmd` that stands below `path`.
    pub fn from_cmd(cmd: &CommandInfo, path: String) -> (r: Self)
        ensures
            r@ == command_model(*cmd, path@),
            r.wf(),
            property_models(r.function.parameters.properties@) == merged(
                described_pairs(cmd.arguments@),
            ),
    {
        let mut properties: Vec<(String, ChatGPTFunctionProperty)> = Vec::new();
        let mut req_properites: Vec<String> = Vec::new();
        let mut i: usize = 0;
        proof {
            assert(property_models(properties@) =~= merged(
                described_pairs(cmd.arguments@.take(0)),
            ));
            assert(texts(req_properites@) =~= required_of(cmd.arguments@.take(0)));
        }
        while i < cmd.arguments.len()
            invariant
                i <= cmd.arguments.len(),
                property_models(properties@) == merged(
                    described_pairs(cmd.arguments@.take(i as int)),
                ),
                texts(req_properites@) == required_of(cmd.arguments@.take(i as int)),
            decreases cmd.arguments.len() - i,
        {
            let arg = &cmd.arguments[i];
            proof {
                assert(cmd.arguments@.take(i + 1).drop_last() =~= cmd.arguments@.take(i as int));
                assert(cmd.arguments@.take(i + 1).last() == *arg);
            }
            if !arg.hidden && !str_eq(arg.id.as_str(), "help") {
                let enum_values = if arg.possible_values.len() == 0 {
                    None
                } else {
                    Some(clone_strings(&arg.possible_values))
                };
                let property = ChatGPTFunctionProperty {
                    description: clone_option(&arg.help),
                    enum_values,
                    index: arg.index,
                };
                assert(property@ == property_of(*arg));
                if arg.required {
                    let ghost before = texts(req_properites@);
                    req_properites.push(arg.id.clone());
                    assert(texts(req_properites@) =~= before.push(arg.id@));
                }
                proof {
                    let seen = described_pairs(cmd.arguments@.take(i as int));
                    let next = seen.push((arg.id@, property@));
                    assert(next.drop_last() =~= seen);
                    assert(next.last() == (arg.id@, property@));
                }
                set_property(&mut properties, arg.id.clone(), property);
            }
            i = i + 1;
        }
        assert(cmd.arguments@.take(i as int) =~= cmd.arguments@);
        proof {
            lemma_merged(described_pairs(cmd.arguments@));
        }
        let mut name = path;
        name.append(cmd.name.as_str());
        let description = match &cmd.about {
            Some(text) => text.clone(),
            None => String::from_str("No Description"),
        };
        ChatGPTCommand {
            cmd_type: String::from_str("function"),
            function: ChatGPTFunction {
                name,
                description,
                parameters: ChatGPTFunctionParams {
                    param_type: String::from_str("object"),
                    required: req_properites,
                    properties,
                },
            },
        }
    }
}

/// The descriptions of the commands below `cmd`, which stands below
/// `prefix`.
pub fn get_chatgpt_subcommands(cmd: &CommandInfo, prefix: &str) -> (r: Vec<ChatGPTCommand>)
    ensures
        command_models(r@) == commands_of(*cmd, prefix@),
        forall|i: int| 0 <= i < r.len() ==> (#[trigger] r[i]).wf(),
    decreases cmd,
{
    let children_prefix = if str_eq(cmd.name.as_str(), "aerial-utils") {
        String::new()
    } else {
        let mut p = String::from_str(prefix);
        p.append(cmd.name.as_str());
        p.append("_");
        p
    };
    assert(children_prefix@ =~= self::children_prefix(cmd.name@, prefix@));
    let mut subcommands: Vec<ChatGPTCommand> = Vec::new();
    let mut i: usize = 0;
    proof {
        assert(command_models(subcommands@) =~= commands_of_list(*cmd, 0, children_prefix@));
    }
    while i < cmd.subcommands.len()
        invariant
            i <= cmd.subcommands.len(),
            command_models(subcommands@) == commands_of_list(*cmd, i as nat, children_prefix@),
            forall|j: int| 0 <= j < subcommands.len() ==> (#[trigger] subcommands[j]).wf(),
        decreases cmd.subcommands.len() - i,
    {
        let subcommand = &cmd.subcommands[i];
        let ghost before = subcommands@;
        if !str_eq(subcommand.name.as_str(), "help") {
            if subcommand.subcommands.len() > 0 {
                let mut below = get_chatgpt_subcommands(subcommand, children_prefix.as_str());
                let ghost added = below@;
                subcommands.append(&mut below);
                proof {
                    assert(subcommands@ =~= before + added);
                    assert(command_models(subcommands@) =~= command_models(before)
                        + command_models(added));
                }
            } else {
                let one = ChatGPTCommand::from_cmd(subcommand, children_prefix.clone());
                subcommands.push(one);
                proof {
                    assert(command_models(subcommands@) =~= command_models(before).push(one@));
                }
            }
        }
        i = i + 1;
    }
    subcommands
}

/// The descriptions of all the commands of the program whose tree is
/// `root`, ready to be written out.
pub fn print_subcommand_specs(root: &CommandInfo) -> (r: Vec<ChatGPTCommand>)
    ensures
        command_models(r@) == commands_of(*root, Seq::empty()),
        forall|i: int| 0 <= i < r.len() ==> (#[trigger] r[i]).wf(),
{
    proof {
        reveal_strlit("");
        assert(""@ =~= Seq::<char>::empty());
    }
    get_chatgpt_subcommands(root, "")
}

} // verus!
