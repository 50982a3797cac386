//! The sub-commands of the tool and the work each one stands for.

use vstd::prelude::*;

verus! {

/// The sub-command given on the command line.
#[derive(Debug)]
pub enum Command {
    Whoami,
    Winver,
    Sysinfo,
    Privileges,
    All,
    KeepAwake { active: bool },
    Paste { message: Option<Vec<String>> },
    Version,
}

/// One piece of work that a sub-command runs.
#[derive(Debug)]
pub enum Action {
    Winver,
    Sysinfo,
    Whoami,
    Privileges,
    KeepAwake { active: bool },
    Paste { message: Option<Vec<String>> },
    PrintVersion,
}

/// The work that `command` runs, in order. `All` runs every information
/// report: the version, system, identity and privilege reports.
pub open spec fn command_actions(command: Command) -> Seq<Action> {
    match command {
        Command::Whoami => seq![Action::Whoami],
        Command::Winver => seq![Action::Winver],
        Command::Sysinfo => seq![Action::Sysinfo],
        Command::Privileges => seq![Action::Privileges],
        Command::All => seq![Action::Winver, Action::Sysinfo, Action::Whoami, Action::Privileges],
        Command::KeepAwake { active } => seq![Action::KeepAwake { active }],
        Command::Paste { message } => seq![Action::Paste { message }],
        Command::Version => seq![Action::PrintVersion],
    }
}

/// The work that `command` runs, in order (none without a sub-command).
pub fn actions_for(command: Option<Command>) -> (r: Vec<Action>)
    ensures
        command matches Some(c) ==> r@ == command_actions(c),
        command is None ==> r@.len() == 0,
{
    let ghost requested = command;
    let mut r: Vec<Action> = Vec::new();
    match command {
        None => {},
        Some(Command::Whoami) => r.push(Action::Whoami),
        Some(Command::Winver) => r.push(Action::Winver),
        Some(Command::Sysinfo) => r.push(Action::Sysinfo),
        Some(Command::Privileges) => r.push(Action::Privileges),
        Some(Command::All) => {
            r.push(Action::Winver);
            r.push(Action::Sysinfo);
            r.push(Action::Whoami);
            r.push(Action::Privileges);
        },
        Some(Command::KeepAwake { active }) => r.push(Action::KeepAwake { active }),
        Some(Command::Paste { message }) => r.push(Action::Paste { message }),
        Some(Command::Version) => r.push(Action::PrintVersion),
    }
    proof {
        if requested is Some {
            assert(r@ =~= command_actions(requested->0));
        }
    }
    r
}

/// Whether `a` is one of the information reports.
pub open spec fn is_report(a: Action) -> bool {
    a is Winver || a is Sysinfo || a is Whoami || a is Privileges
}

/// `All` runs exactly the work of the `winver`, `sysinfo`, `whoami` and
/// `privileges` commands, one after the other, and nothing but information
/// reports: never `paste`, `keep-awake` or `version`.
pub proof fn all_runs_every_report()
    ensures
        command_actions(Command::All) == command_actions(Command::Winver) + command_actions(
            Command::Sysinfo,
        ) + command_actions(Command::Whoami) + command_actions(Command::Privileges),
        forall|i: int|
            0 <= i < command_actions(Command::All).len() ==> is_report(
                #[trigger] command_actions(Command::All)[i],
            ),
{
    assert(command_actions(Command::All) =~= command_actions(Command::Winver) + command_actions(
        Command::Sysinfo,
    ) + command_actions(Command::Whoami) + command_actions(Command::Privileges));
}

/// Each single information command runs exactly its own report, and
/// `version` only prints the version.
pub proof fn single_commands_run_their_own_report()
    ensures
        command_actions(Command::Winver) == seq![Action::Winver],
        command_actions(Command::Sysinfo) == seq![Action::Sysinfo],
        command_actions(Command::Whoami) == seq![Action::Whoami],
        command_actions(Command::Privileges) == seq![Action::Privileges],
        command_actions(Command::Version) == seq![Action::PrintVersion],
{
}

/// `keep-awake` runs one keep-awake action with the `--active` flag passed
/// through unchanged: input is simulated only when the flag was given.
pub proof fn keep_awake_passes_its_flag(active: bool)
    ensures
        command_actions(Command::KeepAwake { active }).len() == 1,
        command_actions(Command::KeepAwake { active })[0] == (Action::KeepAwake { active }),
        command_actions(Command::KeepAwake { active: false })[0] == (Action::KeepAwake {
            active: false,
        }),
{
}

/// `paste` runs one paste action with the message passed through unchanged.
pub proof fn paste_passes_its_message(message: Option<Vec<String>>)
    ensures
        command_actions(Command::Paste { message }).len() == 1,
        command_actions(Command::Paste { message })[0] == (Action::Paste { message }),
{
}

/// `parts` joined with `sep` between each two neighbours.
pub open spec fn join_with(parts: Seq<Seq<char>>, sep: Seq<char>) -> Seq<char>
    decreases parts.len(),
{
    if parts.len() == 0 {
        Seq::empty()
    } else if parts.len() == 1 {
        parts[0]
    } else {
        join_with(parts.drop_last(), sep) + sep + parts.last()
    }
}

/// The total length of `parts`.
pub open spec fn total_len(parts: Seq<Seq<char>>) -> nat
    decreases parts.len(),
{
    if parts.len() == 0 {
        0
    } else {
        total_len(parts.drop_last()) + parts.last().len()
    }
}

/// Joining no parts gives nothing, joining one part gives that part, and
/// adding a part to a non-empty list adds exactly one separator and the
/// part: join(parts + [w]) == join(parts) + sep + w.
pub proof fn join_adds_one_separator_per_part(parts: Seq<Seq<char>>, w: Seq<char>, sep: Seq<char>)
    ensures
        join_with(Seq::<Seq<char>>::empty(), sep) == Seq::<char>::empty(),
        join_with(seq![w], sep) == w,
        parts.len() > 0 ==> join_with(parts.push(w), sep) == join_with(parts, sep) + sep + w,
{
    assert(parts.push(w).drop_last() =~= parts);
}

/// A join of `n > 0` parts is as long as the parts together plus `n - 1`
/// separators.
pub proof fn join_length(parts: Seq<Seq<char>>, sep: Seq<char>)
    requires
        parts.len() > 0,
    ensures
        join_with(parts, sep).len() == total_len(parts) + (parts.len() - 1) * sep.len(),
    decreases parts.len(),
{
    let n = parts.len() as int;
    let k = sep.len() as int;
    if n == 1 {
        assert(parts.drop_last() =~= Seq::<Seq<char>>::empty());
        assert(total_len(parts.drop_last()) == 0);
        assert(total_len(parts) == parts[0].len());
        assert((n - 1) * k == 0) by (nonlinear_arith)
            requires n == 1;
    } else {
        join_length(parts.drop_last(), sep);
        assert((n - 1) * k == (n - 2) * k + k) by (nonlinear_arith);
        assert(join_with(parts, sep) == join_with(parts.drop_last(), sep) + sep + parts.last());
    }
}

/// The texts of `words`.
pub open spec fn texts(words: Seq<String>) -> Seq<Seq<char>> {
    words.map_values(|w: String| w@)
}

/// The words joined with single spaces, as `words.join(" ")` does.
pub fn join_words(words: &Vec<String>) -> (s: String)
    ensures
        s@ == join_with(texts(words@), " "@),
{
    let mut out = String::new();
    let n = words.len();
    let mut i: usize = 0;
    while i < n
        invariant
            n == words@.len(),
            i <= n,
            out@ == join_with(texts(words@.subrange(0, i as int)), " "@),
        decreases n - i,
    {
        let ghost prev = texts(words@.subrange(0, i as int));
        if i > 0 {
            out.append(" ");
        }
        out.append(words[i].as_str());
        proof {
            let next = texts(words@.subrange(0, i + 1));
            assert(next.drop_last() =~= prev);
            assert(next.last() == words@[i as int]@);
            if i == 0 {
                assert(next.len() == 1);
            }
        }
        i = i + 1;
    }
    assert(words@.subrange(0, n as int) =~= words@);
    out
}

/// The text to type for `paste`: the words of the message joined with
/// spaces, or `None` when no message was given and it is to be read from
/// standard input.
pub fn paste_message(message: &Option<Vec<String>>) -> (r: Option<String>)
    ensures
        message matches Some(words) ==> (r matches Some(s) && s@ == join_with(
            texts(words@),
            " "@,
        )),
        message is None ==> r is None,
{
    match message {
        Some(words) => Some(join_words(words)),
        None => None,
    }
}

/// What `paste` does once it has looked for the window under the cursor.
#[derive(Clone, Copy, Debug, PartialEq, Eq)]
pub enum PasteAction {
    /// Click into the window and type the message.
    ClickAndType { window: usize },
    /// Report that no window lies under the cursor.
    NoWindow,
}

/// Clicks and types into the window under the cursor when there is one.
pub fn paste_action(window: Option<usize>) -> (r: PasteAction)
    ensures
        window matches Some(w) ==> r == (PasteAction::ClickAndType { window: w }),
        window is None ==> r == PasteAction::NoWindow,
{
    match window {
        Some(w) => PasteAction::ClickAndType { window: w },
        None => PasteAction::NoWindow,
    }
}

/// What `keep-awake` does after each wait for the Ctrl-C signal.
#[derive(Clone, Copy, Debug, PartialEq, Eq)]
pub enum KeepAwakeStep {
    /// Wait again.
    KeepWaiting,
    /// Leave the loop and release the wake lock.
    Exit,
}

/// Exits once the Ctrl-C signal has arrived; otherwise keeps waiting.
pub fn keep_awake_step(signal_received: bool) -> (r: KeepAwakeStep)
    ensures
        r == (if signal_received {
            KeepAwakeStep::Exit
        } else {
            KeepAwakeStep::KeepWaiting
        }),
{
    if signal_received {
        KeepAwakeStep::Exit
    } else {
        KeepAwakeStep::KeepWaiting
    }
}

} // verus!
