//! The table of commands: what each is called, how it is gated, and which
//! group it belongs to.

use vstd::prelude::*;
use vstd::string::*;

verus! {

/// What runs when a command is invoked.
#[derive(Clone, Copy, Debug, PartialEq, Eq, Hash)]
pub enum Handler {
    Ping,
    DoYouKnow,
    Version,
    Mac,
    Linux,
    Windows,
    Cat,
    Dog,
    Eggplant,
    Bird,
    Play,
    SlowMode,
    Mute,
    Unmute,
    Muted,
    Help,
}

/// A condition on who invokes a command, beyond the owners list.
#[derive(Clone, Copy, Debug, PartialEq, Eq, Hash)]
pub enum Check {
    /// The message must come from the bot's keeper.
    Owner,
}

/// Why a check failed, and who is to learn of it.
#[derive(Debug, PartialEq, Eq)]
pub enum Reason {
    /// Told to the user.
    User(String),
    /// Written to the log only.
    Log(String),
    /// Nothing is known of the failure.
    Unknown,
    /// One text for the user and one for the log.
    UserAndLog { user: String, log: String },
}

/// One command.
pub struct Command {
    /// The name, and after it the aliases.
    pub names: Vec<String>,
    pub description: String,
    /// The rate limit that the command shares with others of that name.
    pub bucket: Option<String>,
    pub checks: Vec<Check>,
    pub guild_only: bool,
    pub owners_only: bool,
    pub handler: Handler,
}

/// A group of commands. A group with prefixes is entered by one of them; a
/// group without has its commands at the top level.
pub struct Group {
    pub name: String,
    pub prefixes: Vec<String>,
    pub description: String,
    pub summary: String,
    /// The places of the group's commands in the registry.
    pub commands: Vec<usize>,
    /// The command that runs when the prefix is followed by none of them.
    pub default_command: Option<usize>,
    pub checks: Vec<Check>,
    pub guild_only: bool,
    pub owners_only: bool,
}

/// All commands and groups. A command that no group lists can not be
/// invoked.
pub struct Registry {
    pub commands: Vec<Command>,
    pub groups: Vec<Group>,
}

/// The user that the `Owner` check lets pass.
pub open spec fn keeper() -> u64 {
    355607930168541185
}

/// Whether `author` passes `check`.
pub open spec fn passes(check: Check, author: u64) -> bool {
    match check {
        Check::Owner => author == keeper(),
    }
}

/// Whether `word` is the name or an alias of `command`.
pub open spec fn is_called(command: Command, word: Seq<char>) -> bool {
    command.names.deep_view().contains(word)
}

/// Whether every place that `group` refers to holds a command.
pub open spec fn group_in_range(group: Group, commands: int) -> bool {
    &&& forall|k: int| 0 <= k < group.commands.len() ==> (#[trigger] group.commands[k]) < commands
    &&& group.default_command matches Some(c) ==> c < commands
}

impl Registry {
    /// Whether the registry is well formed: every command has a name, and
    /// the groups refer to commands that exist.
    pub open spec fn wf(&self) -> bool {
        &&& forall|c: int| 0 <= c < self.commands.len() ==> (#[trigger] self.commands[c]).names.len() > 0
        &&& forall|g: int|
            0 <= g < self.groups.len() ==> group_in_range(
                #[trigger] self.groups[g],
                self.commands.len() as int,
            )
    }

    /// The name at place `m` of the command at place `i` of the group at `g`.
    pub open spec fn name_at(&self, g: int, i: int, m: int) -> Seq<char> {
        self.commands[self.groups[g].commands[i] as int].names[m]@
    }

    /// How many names the command at place `i` of the group at `g` has.
    pub open spec fn names_at(&self, g: int, i: int) -> int {
        self.commands[self.groups[g].commands[i] as int].names.len() as int
    }

    /// Whether no two names in the namespace of the group at `g` are the
    /// same, so that every name there belongs to exactly one command.
    pub open spec fn unambiguous(&self, g: int) -> bool {
        forall|i: int, m: int, j: int, n: int|
            #![trigger self.name_at(g, i, m), self.name_at(g, j, n)]
            0 <= i < self.groups[g].commands.len() && 0 <= m < self.names_at(g, i) && 0 <= j
                < self.groups[g].commands.len() && 0 <= n < self.names_at(g, j) && self.name_at(
                g,
                i,
                m,
            ) == self.name_at(g, j, n) ==> i == j && m == n
    }

    /// An empty registry.
    pub fn new() -> (r: Registry)
        ensures
            r.wf(),
            r.commands.len() == 0,
            r.groups.len() == 0,
    {
        Registry { commands: Vec::new(), groups: Vec::new() }
    }

    /// Checks that the registry is well formed.
    pub fn is_valid(&self) -> (r: bool)
        ensures
            r == self.wf(),
    {
        let mut c: usize = 0;
        while c < self.commands.len()
            invariant
                c <= self.commands.len(),
                forall|k: int| 0 <= k < c ==> (#[trigger] self.commands[k]).names.len() > 0,
            decreases self.commands.len() - c,
        {
            if self.commands[c].names.len() == 0 {
                return false;
            }
            c += 1;
        }
        let mut g: usize = 0;
        while g < self.groups.len()
            invariant
                g <= self.groups.len(),
                forall|k: int| 0 <= k < self.commands.len() ==> (#[trigger] self.commands[k]).names.len() > 0,
                forall|k: int|
                    0 <= k < g ==> group_in_range(
                        #[trigger] self.groups[k],
                        self.commands.len() as int,
                    ),
            decreases self.groups.len() - g,
        {
            let group = &self.groups[g];
            match group.default_command {
                Some(d) => {
                    if d >= self.commands.len() {
                        return false;
                    }
                },
                None => {},
            }
            let mut k: usize = 0;
            while k < group.commands.len()
                invariant
                    k <= group.commands.len(),
                    g < self.groups.len(),
                    *group == self.groups[g as int],
                    forall|j: int|
                        0 <= j < k ==> (#[trigger] group.commands[j]) < self.commands.len(),
                decreases group.commands.len() - k,
            {
                if group.commands[k] >= self.commands.len() {
                    return false;
                }
                k += 1;
            }
            g += 1;
        }
        true
    }

    /// Checks that no name occurs twice among the commands of the group at
    /// `g`.
    pub fn is_unambiguous(&self, g: usize) -> (r: bool)
        requires
            self.wf(),
            g < self.groups.len(),
        ensures
            r == self.unambiguous(g as int),
    {
        let listed = &self.groups[g].commands;
        assert(group_in_range(self.groups[g as int], self.commands.len() as int));
        let mut i: usize = 0;
        while i < listed.len()
            invariant
                i <= listed.len(),
                self.wf(),
                g < self.groups.len(),
                *listed == self.groups[g as int].commands,
                group_in_range(self.groups[g as int], self.commands.len() as int),
                forall|a: int, m: int, j: int, n: int|
                    #![trigger self.name_at(g as int, a, m), self.name_at(g as int, j, n)]
                    0 <= a < i && 0 <= m < self.names_at(g as int, a) && 0 <= j < listed.len() && 0
                        <= n < self.names_at(g as int, j) && self.name_at(g as int, a, m)
                        == self.name_at(g as int, j, n) ==> a == j && m == n,
            decreases listed.len() - i,
        {
            let names = &self.commands[listed[i]].names;
            let mut m: usize = 0;
            while m < names.len()
                invariant
                    m <= names.len(),
                    i < listed.len(),
                    self.wf(),
                    g < self.groups.len(),
                    *listed == self.groups[g as int].commands,
                    *names == self.commands[listed[i as int] as int].names,
                    group_in_range(self.groups[g as int], self.commands.len() as int),
                    forall|b: int, j: int, n: int|
                        #![trigger self.name_at(g as int, i as int, b), self.name_at(g as int, j, n)]
                        0 <= b < m && 0 <= j < listed.len() && 0 <= n < self.names_at(g as int, j)
                            && self.name_at(g as int, i as int, b) == self.name_at(g as int, j, n)
                            ==> i == j && b == n,
                decreases names.len() - m,
            {
                let mut j: usize = 0;
                while j < listed.len()
                    invariant
                        j <= listed.len(),
                        i < listed.len(),
                        m < names.len(),
                        self.wf(),
                        g < self.groups.len(),
                        *listed == self.groups[g as int].commands,
                        *names == self.commands[listed[i as int] as int].names,
                        group_in_range(self.groups[g as int], self.commands.len() as int),
                        forall|c: int, n: int|
                            #![trigger self.name_at(g as int, c, n)]
                            0 <= c < j && 0 <= n < self.names_at(g as int, c) && self.name_at(
                                g as int,
                                i as int,
                                m as int,
                            ) == self.name_at(g as int, c, n) ==> i == c && m == n,
                    decreases listed.len() - j,
                {
                    let others = &self.commands[listed[j]].names;
                    let mut n: usize = 0;
                    while n < others.len()
                        invariant
                            n <= others.len(),
                            i < listed.len(),
                            j < listed.len(),
                            m < names.len(),
                            self.wf(),
                            g < self.groups.len(),
                            *listed == self.groups[g as int].commands,
                            *names == self.commands[listed[i as int] as int].names,
                            *others == self.commands[listed[j as int] as int].names,
                            forall|d: int|
                                #![trigger self.name_at(g as int, j as int, d)]
                                0 <= d < n && self.name_at(g as int, i as int, m as int)
                                    == self.name_at(g as int, j as int, d) ==> i == j && m == d,
                        decreases others.len() - n,
                    {
                        if !(i == j && m == n) && crate::text::same_text(
                            names[m].as_str(),
                            others[n].as_str(),
                        ) {
                            assert(self.name_at(g as int, i as int, m as int) == self.name_at(
                                g as int,
                                j as int,
                                n as int,
                            ));
                            return false;
                        }
                        n += 1;
                    }
                    j += 1;
                }
                m += 1;
            }
            i += 1;
        }
        true
    }
}

/// Whether `author` passes `check`.
pub fn check_passes(check: Check, author: u64) -> (r: bool)
    ensures
        r == passes(check, author),
{
    match check {
        Check::Owner => author == 355607930168541185,
    }
}

/// What failing `check` means, and who is to learn of it.
pub open spec fn reason_text(check: Check) -> Seq<char> {
    match check {
        Check::Owner => "Lacked owner permission"@,
    }
}

/// The reason given to whoever fails `check`: a text for the user.
pub fn reason(check: Check) -> (r: Reason)
    ensures
        r matches Reason::User(text) && text@ == reason_text(check),
{
    match check {
        Check::Owner => Reason::User(String::from_str("Lacked owner permission")),
    }
}

/// Asks `check` of `author`: whoever passes goes on, and whoever fails is
/// given the reason.
pub fn evaluate(check: Check, author: u64) -> (r: Result<(), Reason>)
    ensures
        r is Ok <==> passes(check, author),
        r matches Err(why) ==> why matches Reason::User(text) && text@ == reason_text(check),
{
    if check_passes(check, author) {
        Ok(())
    } else {
        Err(reason(check))
    }
}

/// The `Owner` check: only the bot's keeper passes, and anybody else is
/// told so.
pub fn owner_check(author: u64) -> (r: Result<(), Reason>)
    ensures
        r is Ok <==> passes(Check::Owner, author),
        r matches Err(why) ==> why matches Reason::User(text) && text@ == reason_text(Check::Owner),
{
    if author != 355607930168541185 {
        return Err(reason(Check::Owner));
    }
    Ok(())
}

/// What a user is told of a failed check: the text meant for users, if the
/// reason has one.
pub fn shown(reason: &Reason) -> (r: Option<String>)
    ensures
        match *reason {
            Reason::User(text) => r matches Some(s) && s@ == text@,
            Reason::UserAndLog { user, log } => r matches Some(s) && s@ == user@,
            Reason::Log(_) => r is None,
            Reason::Unknown => r is None,
        },
{
    match reason {
        Reason::User(text) => Some(text.clone()),
        Reason::UserAndLog { user, log: _ } => Some(user.clone()),
        Reason::Log(_) => None,
        Reason::Unknown => None,
    }
}

/// What the log is told of a failed check: the text meant for the log, if
/// the reason has one.
pub fn logged(reason: &Reason) -> (r: Option<String>)
    ensures
        match *reason {
            Reason::Log(text) => r matches Some(s) && s@ == text@,
            Reason::UserAndLog { user, log } => r matches Some(s) && s@ == log@,
            Reason::User(_) => r is None,
            Reason::Unknown => r is None,
        },
{
    match reason {
        Reason::Log(text) => Some(text.clone()),
        Reason::UserAndLog { user: _, log } => Some(log.clone()),
        Reason::User(_) => None,
        Reason::Unknown => None,
    }
}

} // verus!
