use codekeys::handler::Handler;
use codekeys::hotkey::{is_shortcut_pressed, parse_chord, HotKeyError, Shortcut};
use codekeys::keycode::key_code;
use codekeys::keys::{Event, KeyState, MASK_CONTROL, MASK_NON_COALESCED, MASK_SHIFT};
use codekeys::monitor::MonitoringQueue;
use codekeys::replay::{replay_commands, ReplayCommand};

#[test]
fn matcher_requires_exact_modifiers() {
    let shortcut = Shortcut {
        flags: MASK_CONTROL,
        keycode: 7,
    };
    assert!(is_shortcut_pressed(MASK_CONTROL, 7, &shortcut));
    assert!(is_shortcut_pressed(MASK_CONTROL | MASK_NON_COALESCED, 7, &shortcut));
    // An extra modifier beyond the expected set must be rejected even though
    // the expected modifier and the key code are right.
    assert!(!is_shortcut_pressed(MASK_CONTROL | MASK_SHIFT, 7, &shortcut));
    assert!(!is_shortcut_pressed(0, 7, &shortcut));
    assert!(!is_shortcut_pressed(MASK_CONTROL, 8, &shortcut));
    assert!(shortcut.matches(MASK_CONTROL, 7));
    assert!(!shortcut.matches(MASK_CONTROL | MASK_SHIFT, 7));
}

#[test]
fn chord_parsing() {
    assert_eq!(
        parse_chord("C-t"),
        Ok(Shortcut {
            flags: MASK_CONTROL,
            keycode: 17
        })
    );
    assert_eq!(
        parse_chord("C-S-x"),
        Ok(Shortcut {
            flags: MASK_CONTROL | MASK_SHIFT,
            keycode: 7
        })
    );
    assert_eq!(
        parse_chord("space"),
        Ok(Shortcut {
            flags: 0,
            keycode: 49
        })
    );
    assert_eq!(parse_chord(""), Err(HotKeyError::InvalidChordSyntax));
    assert_eq!(parse_chord("C-"), Err(HotKeyError::InvalidChordSyntax));
    assert_eq!(parse_chord("Q-t"), Err(HotKeyError::InvalidChordSyntax));
    assert_eq!(parse_chord("C-qq"), Err(HotKeyError::InvalidChordSyntax));
}

#[test]
fn key_table_lookups() {
    assert_eq!(key_code("a"), Some(0));
    assert_eq!(key_code("x"), Some(7));
    assert_eq!(key_code("space"), Some(49));
    assert_eq!(key_code("return"), Some(36));
    assert_eq!(key_code("nosuchkey"), None);
}

#[test]
fn buffer_grows_newest_first_and_is_bounded() {
    let shortcut = Shortcut {
        flags: MASK_CONTROL,
        keycode: 7,
    };
    let mut handler = Handler::new(3, shortcut);
    for (n, code) in [(1usize, 1u16), (2, 2), (3, 3), (3, 4), (3, 5)] {
        let (forwarded, replay) = handler.callback(Event::KeyPress(code));
        assert_eq!(forwarded, Some(Event::KeyPress(code)));
        assert!(replay.is_none());
        assert_eq!(handler.buffer.len(), n);
        assert_eq!(handler.buffer[0].code, code);
    }
    let kept: Vec<u16> = handler.buffer.iter().map(|k| k.code).collect();
    assert_eq!(kept, vec![5, 4, 3]);
}

#[test]
fn end_to_end_capacity_three_replay() {
    // Capacity-3 buffer, shortcut Control + the x key.
    let shortcut = Shortcut {
        flags: MASK_CONTROL,
        keycode: 7,
    };
    let mut handler = Handler::new(3, shortcut);
    // Push codes A(0), B(11), C(8) with no modifiers held.
    for code in [0u16, 11, 8] {
        let (forwarded, replay) = handler.callback(Event::KeyPress(code));
        assert_eq!(forwarded, Some(Event::KeyPress(code)));
        assert!(replay.is_none());
    }
    let buffered: Vec<u16> = handler.buffer.iter().map(|k| k.code).collect();
    assert_eq!(buffered, vec![8, 11, 0]); // newest first: [C, B, A]

    // Hold Control, press x: the filter swallows the event and snapshots.
    let control = MASK_CONTROL | MASK_NON_COALESCED;
    let (forwarded, replay) = handler.callback(Event::FlagsChanged(59, control));
    assert_eq!(forwarded, Some(Event::FlagsChanged(59, control)));
    assert!(replay.is_none());
    let (forwarded, replay) = handler.callback(Event::KeyPress(7));
    assert_eq!(forwarded, None);
    let replay = replay.expect("the shortcut press must snapshot the buffer");
    assert_eq!(replay.flags, control);
    let snapshot: Vec<KeyState> = replay.buffer.iter().copied().collect();
    assert_eq!(
        snapshot,
        vec![
            KeyState {
                code: 8,
                flags: MASK_NON_COALESCED
            },
            KeyState {
                code: 11,
                flags: MASK_NON_COALESCED
            },
            KeyState {
                code: 0,
                flags: MASK_NON_COALESCED
            },
        ]
    );
    // The buffer itself is untouched by the trigger.
    assert_eq!(handler.buffer.len(), 3);

    // The replay plan reproduces A, B, C — oldest first — restoring the
    // recorded mask before the first entry and the trigger mask at the end.
    let commands = replay_commands(&replay);
    assert_eq!(
        commands,
        vec![
            ReplayCommand::FlagsChanged(MASK_NON_COALESCED),
            ReplayCommand::KeyDown(0),
            ReplayCommand::KeyUp(0),
            ReplayCommand::KeyDown(11),
            ReplayCommand::KeyUp(11),
            ReplayCommand::KeyDown(8),
            ReplayCommand::KeyUp(8),
            ReplayCommand::FlagsChanged(control),
        ]
    );
}

#[test]
fn matching_press_leaves_buffer_unchanged() {
    let shortcut = Shortcut {
        flags: MASK_CONTROL,
        keycode: 7,
    };
    let mut handler = Handler::new(4, shortcut);
    handler.callback(Event::KeyPress(1));
    handler.callback(Event::FlagsChanged(59, MASK_CONTROL));
    let before: Vec<KeyState> = handler.buffer.iter().copied().collect();
    let (forwarded, replay) = handler.callback(Event::KeyPress(7));
    assert_eq!(forwarded, None);
    assert!(replay.is_some());
    let after: Vec<KeyState> = handler.buffer.iter().copied().collect();
    assert_eq!(before, after);
}

#[test]
fn playing_guard_forwards_everything_untouched() {
    let shortcut = Shortcut {
        flags: MASK_CONTROL,
        keycode: 7,
    };
    let mut handler = Handler::new(3, shortcut);
    handler.callback(Event::KeyPress(1));
    handler.set_playing(true);
    // While playing, even a key press matching the shortcut is forwarded
    // unchanged: nothing is buffered and no replay is triggered.
    handler.callback(Event::FlagsChanged(59, MASK_CONTROL));
    let (forwarded, replay) = handler.callback(Event::KeyPress(7));
    assert_eq!(forwarded, Some(Event::KeyPress(7)));
    assert!(replay.is_none());
    let (forwarded, replay) = handler.callback(Event::KeyPress(2));
    assert_eq!(forwarded, Some(Event::KeyPress(2)));
    assert!(replay.is_none());
    assert_eq!(handler.buffer.len(), 1);
    handler.set_playing(false);
    let (forwarded, _) = handler.callback(Event::KeyPress(2));
    assert_eq!(forwarded, Some(Event::KeyPress(2)));
    assert_eq!(handler.buffer.len(), 2);
}

#[test]
fn key_releases_are_never_buffered() {
    let shortcut = Shortcut {
        flags: MASK_CONTROL,
        keycode: 7,
    };
    let mut handler = Handler::new(3, shortcut);
    let (forwarded, replay) = handler.callback(Event::KeyRelease(5));
    assert_eq!(forwarded, Some(Event::KeyRelease(5)));
    assert!(replay.is_none());
    assert_eq!(handler.buffer.len(), 0);
}

#[test]
fn held_chord_keeps_mask_frozen() {
    let shortcut = Shortcut {
        flags: MASK_CONTROL,
        keycode: 7,
    };
    let mut handler = Handler::new(3, shortcut);
    handler.callback(Event::FlagsChanged(59, MASK_CONTROL));
    handler.callback(Event::KeyPress(7)); // chord fires, chord held
    // While the chord is held, a flags change with modifiers still down does
    // not update the mask.
    handler.callback(Event::FlagsChanged(59, MASK_CONTROL | MASK_SHIFT));
    assert_eq!(handler.latest_flags, MASK_CONTROL);
    assert!(handler.shortcut_pressed);
    // Releasing every modifier leaves the held state.
    handler.callback(Event::FlagsChanged(59, MASK_NON_COALESCED));
    assert!(!handler.shortcut_pressed);
    assert_eq!(handler.latest_flags, MASK_NON_COALESCED);
}

#[test]
fn empty_snapshot_replays_nothing() {
    let shortcut = Shortcut {
        flags: MASK_CONTROL,
        keycode: 7,
    };
    let mut handler = Handler::new(3, shortcut);
    handler.callback(Event::FlagsChanged(59, MASK_CONTROL));
    let (_, replay) = handler.callback(Event::KeyPress(7));
    let replay = replay.unwrap();
    assert_eq!(replay_commands(&replay), vec![]);
}

#[test]
fn monitoring_queue_drops_oldest_past_bound() {
    let mut queue = MonitoringQueue::new();
    for code in 0..45u16 {
        queue.push(Event::KeyPress(code));
    }
    assert_eq!(queue.len(), 40);
    let events = queue.snapshot();
    assert_eq!(events.len(), 40);
    assert_eq!(events[0], Event::KeyPress(5));
    assert_eq!(events[39], Event::KeyPress(44));
}
