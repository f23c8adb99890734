//! Muting and unmuting a member by granting or revoking one role, and
//! listing who is muted.

use vstd::prelude::*;
use vstd::string::*;

use crate::arguments::Arguments;
use crate::platform::{mention, parse_user_id, user_id_of, user_mention};

verus! {

/// What the mute commands read of a guild member.
pub struct Member {
    pub id: u64,
    pub name: String,
    pub roles: Vec<u64>,
}

/// Whom a mute command is aimed at.
#[derive(Debug, PartialEq, Eq)]
pub enum Target {
    /// The argument was a user id or a mention: the member has to be fetched.
    Id(u64),
    /// The member at this place of the list bears the name given.
    Member(usize),
    /// Nobody in the list bears that name.
    Unknown,
}

/// What a mute command does next.
#[derive(Debug, PartialEq, Eq)]
pub enum Step {
    /// Fetch the member with this id, then go on with `found`.
    Fetch(u64),
    /// Grant the role to the member.
    Grant { member: u64, role: u64 },
    /// Revoke the role from the member.
    Revoke { member: u64, role: u64 },
    /// Nothing to change: tell the caller that the lookup failed.
    LookupFailed,
    /// Nothing to do: the command takes one argument and got `given`.
    WrongArguments { given: usize },
}

/// Whether the command grants the role or revokes it.
#[derive(Clone, Copy, Debug, PartialEq, Eq)]
pub enum Change {
    Mute,
    Unmute,
}

/// Whether `member` holds `role`.
pub open spec fn holds(member: Member, role: u64) -> bool {
    member.roles@.contains(role)
}

/// The place of the first member called `name`, if there is one.
pub open spec fn first_named(members: Seq<Member>, name: Seq<char>) -> Option<int>
    decreases members.len(),
{
    if members.len() == 0 {
        None
    } else {
        match first_named(members.drop_last(), name) {
            Some(i) => Some(i),
            None => if members.last().name@ == name {
                Some(members.len() - 1)
            } else {
                None
            },
        }
    }
}

/// Whom `argument` names: a user id where it reads as one, else the first
/// member with exactly that name.
pub open spec fn target_of(argument: Seq<char>, members: Seq<Member>) -> Target {
    if vstd::utf8::is_ascii_chars(argument) && user_id_of(argument) is Some {
        Target::Id(user_id_of(argument).unwrap())
    } else {
        match first_named(members, argument) {
            Some(i) => Target::Member(i as usize),
            None => Target::Unknown,
        }
    }
}

/// The first step of a mute command aimed at `target`.
pub open spec fn first_step(
    change: Change,
    target: Target,
    members: Seq<Member>,
    role: u64,
) -> Step {
    match target {
        Target::Id(id) => Step::Fetch(id),
        Target::Member(i) => found_step(change, members[i as int].id, role),
        Target::Unknown => Step::LookupFailed,
    }
}

/// The first step of a mute command with these arguments: it takes exactly
/// one, which says whom it is aimed at.
pub open spec fn change_step(
    change: Change,
    tokens: Seq<Seq<char>>,
    members: Seq<Member>,
    role: u64,
) -> Step {
    if tokens.len() == 1 {
        first_step(change, target_of(tokens[0], members), members, role)
    } else {
        Step::WrongArguments { given: tokens.len() as usize }
    }
}

/// The step that changes the role of a member that was found.
pub open spec fn found_step(change: Change, member: u64, role: u64) -> Step {
    match change {
        Change::Mute => Step::Grant { member, role },
        Change::Unmute => Step::Revoke { member, role },
    }
}

/// The mentions of those of `members` that hold `role`, in the order of the
/// list.
pub open spec fn muted_mentions(members: Seq<Member>, role: u64) -> Seq<Seq<char>>
    decreases members.len(),
{
    if members.len() == 0 {
        Seq::empty()
    } else {
        let before = muted_mentions(members.drop_last(), role);
        if holds(members.last(), role) {
            before.push(user_mention(members.last().id))
        } else {
            before
        }
    }
}

/// `parts` written one after another with `separator` between them.
pub open spec fn joined(parts: Seq<Seq<char>>, separator: Seq<char>) -> Seq<char>
    decreases parts.len(),
{
    if parts.len() == 0 {
        Seq::empty()
    } else if parts.len() == 1 {
        parts[0]
    } else {
        joined(parts.drop_last(), separator) + separator + parts.last()
    }
}

/// The answer of `muted`.
pub open spec fn muted_reply(members: Seq<Member>, role: u64) -> Seq<char> {
    let mentions = muted_mentions(members, role);
    if mentions.len() > 0 {
        "Currently muted members: "@ + joined(mentions, ", "@)
    } else {
        "No members are currently muted"@
    }
}

/// The answer once the role call has come back.
pub open spec fn change_reply(change: Change, member: u64, done: bool) -> Seq<char> {
    match change {
        Change::Mute => if done {
            user_mention(member) + " was muted"@
        } else {
            "Couldn't mute "@ + user_mention(member)
        },
        Change::Unmute => if done {
            user_mention(member) + " was unmuted"@
        } else {
            "Couldn't unmute "@ + user_mention(member)
        },
    }
}

/// The answer when nobody bears the name given.
pub open spec fn lookup_failed_reply(argument: Seq<char>) -> Seq<char> {
    "couldn't find member: "@ + argument
}

/// Whether `role` is among `roles`.
fn has_role(roles: &Vec<u64>, role: u64) -> (r: bool)
    ensures
        r == roles@.contains(role),
{
    let mut i: usize = 0;
    while i < roles.len()
        invariant
            i <= roles.len(),
            forall|j: int| 0 <= j < i ==> roles@[j] != role,
        decreases roles.len() - i,
    {
        if roles[i] == role {
            return true;
        }
        i += 1;
    }
    false
}

/// Lists the members that hold the mute role, or says that there are none.
pub fn muted(members: &Vec<Member>, role: u64) -> (reply: String)
    ensures
        reply@ == muted_reply(members@, role),
{
    let mut list = String::new();
    let mut count: usize = 0;
    let mut i: usize = 0;
    while i < members.len()
        invariant
            i <= members.len(),
            count == muted_mentions(members@.take(i as int), role).len(),
            count <= i,
            list@ == joined(muted_mentions(members@.take(i as int), role), ", "@),
        decreases members.len() - i,
    {
        let ghost before = members@.take(i as int);
        let ghost now = members@.take(i + 1);
        assert(now.drop_last() == before);
        assert(now.last() == members@[i as int]);
        if has_role(&members[i].roles, role) {
            let text = mention(members[i].id);
            if count > 0 {
                list.append(", ");
            }
            list.append(text.as_str());
            count += 1;
            proof {
                let all = muted_mentions(now, role);
                assert(all == muted_mentions(before, role).push(user_mention(members@[i as int].id)));
                assert(all.drop_last() == muted_mentions(before, role));
                assert(list@ =~= joined(all, ", "@));
            }
        }
        i += 1;
    }
    assert(members@.take(i as int) == members@);
    if count > 0 {
        let mut reply = String::from_str("Currently muted members: ");
        reply.append(list.as_str());
        reply
    } else {
        String::from_str("No members are currently muted")
    }
}

/// Finds whom the argument of a mute command names: a user id or a mention
/// where it reads as one, else the first member with exactly that name.
pub fn get_member(argument: &str, members: &Vec<Member>) -> (target: Target)
    ensures
        target == target_of(argument@, members@),
{
    if argument.is_ascii() {
        match parse_user_id(argument) {
            Some(id) => {
                return Target::Id(id);
            },
            None => {},
        }
    }
    let mut i: usize = 0;
    while i < members.len()
        invariant
            i <= members.len(),
            !(vstd::utf8::is_ascii_chars(argument@) && user_id_of(argument@) is Some),
            first_named(members@.take(i as int), argument@) is None,
        decreases members.len() - i,
    {
        let ghost now = members@.take(i + 1);
        assert(now.drop_last() == members@.take(i as int));
        assert(now.last() == members@[i as int]);
        if crate::text::same_text(members[i].name.as_str(), argument) {
            assert(first_named(now, argument@) == Some(i as int));
            proof {
                lemma_first_named_stays(members@, argument@, i + 1);
            }
            return Target::Member(i);
        }
        i += 1;
    }
    assert(members@.take(i as int) == members@);
    Target::Unknown
}

/// A name found among the first `k` members is found at the same place in
/// the whole list.
pub proof fn lemma_first_named_stays(members: Seq<Member>, name: Seq<char>, k: int)
    requires
        0 <= k <= members.len(),
        first_named(members.take(k), name) is Some,
    ensures
        first_named(members, name) == first_named(members.take(k), name),
    decreases members.len(),
{
    if k == members.len() {
        assert(members.take(k) == members);
    } else {
        assert(members.drop_last().take(k) == members.take(k));
        lemma_first_named_stays(members.drop_last(), name, k);
    }
}

/// The step a mute or unmute takes once the member is known.
pub fn found(change: Change, member: u64, role: u64) -> (step: Step)
    ensures
        step == found_step(change, member, role),
{
    match change {
        Change::Mute => Step::Grant { member, role },
        Change::Unmute => Step::Revoke { member, role },
    }
}

/// The first step of `mute`: the role is granted to a member found by name,
/// a member named by id is fetched first, and a name that nobody bears ends
/// the command without any change of roles. So does any number of arguments
/// but one.
pub fn mute(arguments: &Arguments, members: &Vec<Member>, role: u64) -> (step: Step)
    ensures
        step == change_step(Change::Mute, arguments.tokens.deep_view(), members@, role),
{
    begin(Change::Mute, arguments, members, role)
}

/// The first step of `unmute`: as `mute`, but the role is revoked.
pub fn unmute(arguments: &Arguments, members: &Vec<Member>, role: u64) -> (step: Step)
    ensures
        step == change_step(Change::Unmute, arguments.tokens.deep_view(), members@, role),
{
    begin(Change::Unmute, arguments, members, role)
}

fn begin(change: Change, arguments: &Arguments, members: &Vec<Member>, role: u64) -> (step: Step)
    ensures
        step == change_step(change, arguments.tokens.deep_view(), members@, role),
{
    if arguments.tokens.len() != 1 {
        return Step::WrongArguments { given: arguments.tokens.len() };
    }
    assert(arguments.tokens.deep_view()[0] == arguments.tokens[0]@);
    match get_member(arguments.tokens[0].as_str(), members) {
        Target::Id(id) => Step::Fetch(id),
        Target::Member(i) => {
            proof {
                lemma_first_named_in_range(members@, arguments.tokens[0]@);
            }
            found(change, members[i].id, role)
        },
        Target::Unknown => Step::LookupFailed,
    }
}

/// A place found by name lies inside the list, and the member there bears
/// the name.
pub proof fn lemma_first_named_in_range(members: Seq<Member>, name: Seq<char>)
    ensures
        first_named(members, name) matches Some(i) ==> 0 <= i < members.len() && members[i].name@
            == name,
        first_named(members, name) is None ==> forall|j: int|
            0 <= j < members.len() ==> (#[trigger] members[j]).name@ != name,
    decreases members.len(),
{
    if members.len() > 0 {
        lemma_first_named_in_range(members.drop_last(), name);
        assert forall|j: int| 0 <= j < members.len() - 1 implies members.drop_last()[j]
            == members[j] by {}
        if first_named(members, name) is None {
            assert forall|j: int| 0 <= j < members.len() implies (#[trigger] members[j]).name@
                != name by {
                if j < members.len() - 1 {
                    assert(members.drop_last()[j] == members[j]);
                }
            }
        }
    }
}

/// What to answer once the role call has come back: that the member was
/// muted or unmuted, or that this could not be done. The error of the call
/// itself is not shown to the user.
pub fn changed(change: Change, member: u64, done: bool) -> (reply: String)
    ensures
        reply@ == change_reply(change, member, done),
{
    let who = mention(member);
    match change {
        Change::Mute => if done {
            let mut reply = who;
            reply.append(" was muted");
            reply
        } else {
            let mut reply = String::from_str("Couldn't mute ");
            reply.append(who.as_str());
            reply
        },
        Change::Unmute => if done {
            let mut reply = who;
            reply.append(" was unmuted");
            reply
        } else {
            let mut reply = String::from_str("Couldn't unmute ");
            reply.append(who.as_str());
            reply
        },
    }
}

/// What to answer when nobody bears the name given.
pub fn lookup_failed(arguments: &Arguments) -> (reply: String)
    ensures
        reply@ == lookup_failed_reply(
            if arguments.tokens.len() > 0 {
                arguments.tokens.deep_view()[0]
            } else {
                Seq::empty()
            },
        ),
{
    let mut reply = String::from_str("couldn't find member: ");
    if arguments.tokens.len() > 0 {
        assert(arguments.tokens.deep_view()[0] == arguments.tokens[0]@);
        reply.append(arguments.tokens[0].as_str());
    }
    reply
}

/// The step after a member was asked for by id: the change of role where
/// the member was found, and the end of the command where not.
pub fn fetched(change: Change, member: Option<u64>, role: u64) -> (step: Step)
    ensures
        step == match member {
            Some(id) => found_step(change, id, role),
            None => Step::LookupFailed,
        },
{
    match member {
        Some(id) => found(change, id, role),
        None => Step::LookupFailed,
    }
}

} // verus!
