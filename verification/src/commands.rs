//! The table of commands that the front-end can invoke by name.

use vstd::prelude::*;
use crate::provider::SystemInfoProvider;
use crate::record::SystemInfo;

verus! {

/// The name under which the front-end asks for the host's metadata.
pub const GET_SYSTEM_INFO: &'static str = "get_system_info";

/// An operation that the front-end can invoke.
#[derive(Clone, Copy, Debug, PartialEq, Eq, Structural)]
pub enum Command {
    /// Answer with the host's metadata.
    GetSystemInfo,
}

/// Why an invocation gave no record.
#[derive(Debug, PartialEq, Eq)]
pub enum InvokeError {
    /// No command is registered under the name asked for.
    CommandNotFound,
    /// The command ran and reported a failure, described by the string.
    RequestFailed(String),
}

/// The commands registered when the application starts: the one name
/// [`GET_SYSTEM_INFO`], bound to [`Command::GetSystemInfo`].
pub open spec fn startup_commands() -> Map<Seq<char>, Command> {
    Map::empty().insert(GET_SYSTEM_INFO@, Command::GetSystemInfo)
}

struct Entry {
    name: String,
    command: Command,
}

/// The map that a list of entries stands for. Where a name occurs twice, the
/// earlier entry counts.
spec fn table_of(entries: Seq<Entry>) -> Map<Seq<char>, Command>
    decreases entries.len(),
{
    if entries.len() == 0 {
        Map::empty()
    } else {
        table_of(entries.drop_first()).insert(entries[0].name@, entries[0].command)
    }
}

/// Entries before position `from` whose names all differ from `name` do not
/// matter to what the table holds under `name`.
proof fn lemma_skip_others(entries: Seq<Entry>, from: int, name: Seq<char>)
    requires
        0 <= from <= entries.len(),
        forall|i: int| 0 <= i < from ==> entries[i].name@ != name,
    ensures
        table_of(entries).get(name) == table_of(entries.skip(from)).get(name),
    decreases from,
{
    if from == 0 {
        assert(entries.skip(0) =~= entries);
    } else {
        lemma_skip_others(entries, from - 1, name);
        let rest = entries.skip(from - 1);
        assert(rest.drop_first() =~= entries.skip(from));
    }
}

/// Maps command names to commands. It is filled once, when the application
/// starts, and only read from then on.
pub struct CommandTable {
    entries: Vec<Entry>,
}

impl View for CommandTable {
    type V = Map<Seq<char>, Command>;

    closed spec fn view(&self) -> Map<Seq<char>, Command> {
        table_of(self.entries@)
    }
}

impl CommandTable {
    /// The table that the application starts with.
    pub fn new() -> (table: CommandTable)
        ensures
            table@ == startup_commands(),
            table@.contains_key(GET_SYSTEM_INFO@),
    {
        let mut entries: Vec<Entry> = Vec::new();
        entries.push(Entry { name: GET_SYSTEM_INFO.to_owned(), command: Command::GetSystemInfo });
        proof {
            assert(table_of(entries@.drop_first()) == Map::<Seq<char>, Command>::empty());
        }
        CommandTable { entries }
    }

    /// The command registered under `name`, if there is one.
    pub fn lookup(&self, name: &str) -> (found: Option<Command>)
        ensures
            found == self@.get(name@),
    {
        // Two `String`s are compared, since `==` on those has a specification.
        let wanted = name.to_owned();
        let mut i: usize = 0;
        while i < self.entries.len()
            invariant
                i <= self.entries.len(),
                wanted@ == name@,
                forall|j: int| 0 <= j < i ==> self.entries@[j].name@ != name@,
            decreases self.entries.len() - i,
        {
            if self.entries[i].name == wanted {
                proof {
                    lemma_skip_others(self.entries@, i as int, name@);
                }
                return Some(self.entries[i].command);
            }
            i += 1;
        }
        proof {
            lemma_skip_others(self.entries@, i as int, name@);
        }
        None
    }

    /// Invokes the command registered under `name`, on behalf of the
    /// front-end. An unregistered name gives `CommandNotFound`. A registered
    /// one gives what its command gives: for the host's metadata, the record
    /// that `provider` answers with.
    pub fn invoke(&self, name: &str, provider: &SystemInfoProvider) -> (reply: Result<
        SystemInfo,
        InvokeError,
    >)
        ensures
            self@.contains_key(name@) ==> reply is Ok && reply.unwrap()@ == provider@
                && reply.unwrap()@.populated(),
            !self@.contains_key(name@) ==> reply is Err && reply.unwrap_err()
                == InvokeError::CommandNotFound,
    {
        match self.lookup(name) {
            None => Err(InvokeError::CommandNotFound),
            Some(Command::GetSystemInfo) => {
                match provider.get_system_info() {
                    Ok(info) => Ok(info),
                    Err(text) => Err(InvokeError::RequestFailed(text)),
                }
            },
        }
    }
}

/// The table that the application starts with holds the name
/// [`GET_SYSTEM_INFO`], bound to the command that answers with the host's
/// metadata, and no other name.
pub proof fn lemma_startup_commands(name: Seq<char>)
    ensures
        startup_commands().contains_key(GET_SYSTEM_INFO@),
        startup_commands()[GET_SYSTEM_INFO@] == Command::GetSystemInfo,
        startup_commands().contains_key(name) <==> name == GET_SYSTEM_INFO@,
{
}

} // verus!
