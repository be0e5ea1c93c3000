//! The replay plan: the ordered injection commands that faithfully reproduce
//! a recorded keystroke sequence.
//!
//! A snapshot's buffer is newest-first, so replay walks it from the back:
//! oldest entry first. Before each entry whose recorded mask differs from the
//! one currently in force, a flags change restores it; each entry then
//! becomes one key-down and one key-up. A final flags change puts the
//! trigger-time mask back when replay left another one in force. Performing
//! the commands — the actual injection into the platform input stream — is
//! the platform driver's part; a failed injection aborts the rest of that one
//! plan and nothing is rolled back.
use vstd::prelude::*;

use crate::handler::{spec_step, FilterModel, ReplayState};
use crate::keys::{Event, KeyState};

verus! {

/// One synthetic input transition to inject.
#[derive(PartialEq, Eq, Structural, Clone, Copy, Debug)]
pub enum ReplayCommand {
    FlagsChanged(u64),
    KeyDown(u16),
    KeyUp(u16),
}

/// The commands that replay the entries of `buf` (newest-first) oldest
/// first, `cur` being the mask in force before the first of them.
pub open spec fn spec_commands_back(buf: Seq<KeyState>, cur: u64) -> Seq<ReplayCommand>
    decreases buf.len(),
{
    if buf.len() == 0 {
        Seq::<ReplayCommand>::empty()
    } else {
        let e = buf.last();
        let pre = if e.flags != cur {
            seq![ReplayCommand::FlagsChanged(e.flags)]
        } else {
            Seq::<ReplayCommand>::empty()
        };
        pre + seq![ReplayCommand::KeyDown(e.code), ReplayCommand::KeyUp(e.code)]
            + spec_commands_back(buf.drop_last(), e.flags)
    }
}

/// The whole plan for a snapshot: every entry replayed oldest first, then
/// the trigger-time mask restored if replay left another one in force. The
/// mask in force after the last entry is the newest entry's recorded mask.
pub open spec fn spec_replay_plan(buf: Seq<KeyState>, flags: u64) -> Seq<ReplayCommand> {
    spec_commands_back(buf, flags) + (if buf.len() > 0 && buf[0].flags != flags {
        seq![ReplayCommand::FlagsChanged(flags)]
    } else {
        Seq::<ReplayCommand>::empty()
    })
}

/// The key codes a command sequence presses, in order.
pub open spec fn spec_downs(cmds: Seq<ReplayCommand>) -> Seq<u16>
    decreases cmds.len(),
{
    if cmds.len() == 0 {
        Seq::<u16>::empty()
    } else {
        match cmds[0] {
            ReplayCommand::KeyDown(code) => seq![code] + spec_downs(cmds.drop_first()),
            _ => spec_downs(cmds.drop_first()),
        }
    }
}

/// The recorded key codes of a newest-first buffer, oldest first.
pub open spec fn spec_codes_oldest_first(buf: Seq<KeyState>) -> Seq<u16>
    decreases buf.len(),
{
    if buf.len() == 0 {
        Seq::<u16>::empty()
    } else {
        seq![buf.last().code] + spec_codes_oldest_first(buf.drop_last())
    }
}

/// The pressed codes of two plans in a row are the plans' codes in a row.
proof fn lemma_downs_concat(a: Seq<ReplayCommand>, b: Seq<ReplayCommand>)
    ensures
        spec_downs(a + b) == spec_downs(a) + spec_downs(b),
    decreases a.len(),
{
    if a.len() == 0 {
        assert(a + b =~= b);
        assert(spec_downs(a) + spec_downs(b) =~= spec_downs(b));
    } else {
        assert((a + b)[0] == a[0]);
        assert((a + b).drop_first() =~= a.drop_first() + b);
        lemma_downs_concat(a.drop_first(), b);
        match a[0] {
            ReplayCommand::KeyDown(code) => {
                assert(seq![code] + (spec_downs(a.drop_first()) + spec_downs(b)) =~= spec_downs(a)
                    + spec_downs(b));
            },
            _ => {},
        }
    }
}

/// What the entry commands press, entry by entry.
proof fn lemma_downs_of_commands_back(buf: Seq<KeyState>, cur: u64)
    ensures
        spec_downs(spec_commands_back(buf, cur)) == spec_codes_oldest_first(buf),
    decreases buf.len(),
{
    if buf.len() > 0 {
        let e = buf.last();
        let pre = if e.flags != cur {
            seq![ReplayCommand::FlagsChanged(e.flags)]
        } else {
            Seq::<ReplayCommand>::empty()
        };
        let keys = seq![ReplayCommand::KeyDown(e.code), ReplayCommand::KeyUp(e.code)];
        let rest = spec_commands_back(buf.drop_last(), e.flags);
        lemma_downs_concat(pre, keys + rest);
        lemma_downs_concat(keys, rest);
        lemma_downs_of_commands_back(buf.drop_last(), e.flags);
        assert(spec_downs(Seq::<ReplayCommand>::empty()) == Seq::<u16>::empty());
        if e.flags != cur {
            assert(pre.drop_first() =~= Seq::<ReplayCommand>::empty());
            assert(spec_downs(pre) =~= Seq::<u16>::empty());
        } else {
            assert(spec_downs(pre) =~= Seq::<u16>::empty());
        }
        let keyup = seq![ReplayCommand::KeyUp(e.code)];
        assert(keys.drop_first() =~= keyup);
        assert(keyup.drop_first() =~= Seq::<ReplayCommand>::empty());
        assert(spec_downs(keyup) =~= Seq::<u16>::empty());
        assert(spec_downs(keys) =~= seq![e.code]);
        assert(spec_commands_back(buf, cur) =~= pre + (keys + rest));
        assert(spec_downs(spec_commands_back(buf, cur)) =~= spec_codes_oldest_first(buf));
    }
}

/// Faithful replay order: whatever the snapshot holds, the plan presses
/// exactly the recorded keys, oldest first — the original typing order.
pub proof fn lemma_replay_presses_oldest_first(buf: Seq<KeyState>, flags: u64)
    ensures
        spec_downs(spec_replay_plan(buf, flags)) == spec_codes_oldest_first(buf),
{
    let back = spec_commands_back(buf, flags);
    let restore = if buf.len() > 0 && buf[0].flags != flags {
        seq![ReplayCommand::FlagsChanged(flags)]
    } else {
        Seq::<ReplayCommand>::empty()
    };
    lemma_downs_concat(back, restore);
    lemma_downs_of_commands_back(buf, flags);
    assert(spec_downs(Seq::<ReplayCommand>::empty()) == Seq::<u16>::empty());
    if buf.len() > 0 && buf[0].flags != flags {
        assert(restore.drop_first() =~= Seq::<ReplayCommand>::empty());
        assert(spec_downs(restore) =~= Seq::<u16>::empty());
    } else {
        assert(spec_downs(restore) =~= Seq::<u16>::empty());
    }
    assert(spec_downs(spec_replay_plan(buf, flags)) =~= spec_codes_oldest_first(buf));
}

/// End to end: a key press that matches the shortcut, met outside playback,
/// yields a snapshot whose plan presses exactly the keys recorded at that
/// moment, oldest first.
pub proof fn lemma_trigger_replays_recorded_keys(m: FilterModel, code: u16)
    requires
        !m.playing,
        crate::hotkey::spec_shortcut_matches(m.latest_flags, code, m.shortcut),
    ensures
        ({
            let (_, _, rep) = spec_step(m, Event::KeyPress(code));
            &&& rep is Some
            &&& spec_downs(spec_replay_plan(rep.unwrap().buffer, rep.unwrap().flags))
                == spec_codes_oldest_first(m.buffer)
        }),
{
    lemma_replay_presses_oldest_first(m.buffer, m.latest_flags);
}

/// Emits the commands for the first `n` entries of `buf`, oldest first,
/// `cur` being the mask in force before them.
fn emit_back(buf: &std::collections::VecDeque<KeyState>, n: usize, cur: u64, out: &mut Vec<
    ReplayCommand,
>)
    requires
        n <= buf@.len(),
    ensures
        final(out)@ == old(out)@ + spec_commands_back(buf@.take(n as int), cur),
    decreases n,
{
    if n == 0 {
        proof {
            assert(final(out)@ =~= old(out)@ + spec_commands_back(buf@.take(0), cur));
        }
        return ;
    }
    let e = *(&buf[n - 1]);
    let ghost prefix = buf@.take(n as int);
    proof {
        assert(prefix.last() == e);
        assert(prefix.drop_last() =~= buf@.take(n - 1));
    }
    if e.flags != cur {
        out.push(ReplayCommand::FlagsChanged(e.flags));
    }
    out.push(ReplayCommand::KeyDown(e.code));
    out.push(ReplayCommand::KeyUp(e.code));
    emit_back(buf, n - 1, e.flags, out);
    proof {
        assert(final(out)@ =~= old(out)@ + spec_commands_back(prefix, cur));
    }
}

/// Turns one replay snapshot into its injection plan: the recorded entries
/// oldest first, each with its mask restored before it, and the trigger-time
/// mask put back at the end when needed.
pub fn replay_commands(state: &ReplayState) -> (r: Vec<ReplayCommand>)
    ensures
        r@ == spec_replay_plan(state.buffer@, state.flags),
{
    let mut out: Vec<ReplayCommand> = Vec::new();
    let n = state.buffer.len();
    proof {
        assert(state.buffer@.take(n as int) =~= state.buffer@);
    }
    emit_back(&state.buffer, n, state.flags, &mut out);
    if n > 0 {
        let newest = *(&state.buffer[0]);
        if newest.flags != state.flags {
            out.push(ReplayCommand::FlagsChanged(state.flags));
            proof {
                assert(out@ =~= spec_replay_plan(state.buffer@, state.flags));
            }
            return out;
        }
    }
    proof {
        assert(out@ =~= spec_replay_plan(state.buffer@, state.flags));
    }
    out
}

} // verus!
