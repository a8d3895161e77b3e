use rfid_to_kb::commands::{
    deinit_actions, describe, descriptor_path, device_path, init_actions, outcome_error,
    post_descriptor_actions, pre_descriptor_actions, CommandError, CommandRun, ConfigAction,
    Outcome,
};
use rfid_to_kb::keycode::{Keycode, LEFT_SHIFT};
use rfid_to_kb::report::{empty_report, gadget_report_descriptor, key_report, string_reports};
use rfid_to_kb::run::Progress;
use rfid_to_kb::sender::KeySender;

#[test]
fn it_works() {}

#[test]
fn lowercase_letters_have_no_modifier() {
    for (i, c) in (b'a'..=b'z').enumerate() {
        let k = Keycode::from_ascii(c);
        assert_eq!(k, Keycode { modifiers: 0, code: i as u8 + 4 });
    }
    assert_eq!(Keycode::from_ascii(b'a').code, 4);
    assert_eq!(Keycode::from_ascii(b'z').code, 29);
}

#[test]
fn uppercase_letters_use_shift() {
    for c in b'A'..=b'Z' {
        let k = Keycode::from_ascii(c);
        assert_eq!(k.modifiers, LEFT_SHIFT);
        assert_eq!(k.code, Keycode::from_ascii(c + 32).code);
    }
    assert_eq!(Keycode::from_ascii(b'A'), Keycode { modifiers: 2, code: 4 });
    assert_eq!(Keycode::from_ascii(b'Z'), Keycode { modifiers: 2, code: 29 });
}

#[test]
fn unmapped_byte_is_no_key() {
    assert_eq!(Keycode::from_ascii(0x01), Keycode { modifiers: 0, code: 0 });
    assert_eq!(Keycode::from_ascii(0x80), Keycode { modifiers: 0, code: 0 });
    assert_eq!(Keycode::from_ascii(0xff), Keycode { modifiers: 0, code: 0 });
}

#[test]
fn digits_and_punctuation() {
    assert_eq!(Keycode::from_ascii(b'1'), Keycode { modifiers: 0, code: 30 });
    assert_eq!(Keycode::from_ascii(b'9'), Keycode { modifiers: 0, code: 38 });
    assert_eq!(Keycode::from_ascii(b'0'), Keycode { modifiers: 0, code: 39 });
    assert_eq!(Keycode::from_ascii(b'\n'), Keycode { modifiers: 0, code: 40 });
    assert_eq!(Keycode::from_ascii(27), Keycode { modifiers: 0, code: 41 });
    assert_eq!(Keycode::from_ascii(7), Keycode { modifiers: 0, code: 42 });
    assert_eq!(Keycode::from_ascii(b'\t'), Keycode { modifiers: 0, code: 43 });
    assert_eq!(Keycode::from_ascii(b' '), Keycode { modifiers: 0, code: 44 });
    assert_eq!(Keycode::from_ascii(b'-'), Keycode { modifiers: 0, code: 45 });
    assert_eq!(Keycode::from_ascii(b'_'), Keycode { modifiers: 2, code: 45 });
    assert_eq!(Keycode::from_ascii(b'\\'), Keycode { modifiers: 0, code: 49 });
    assert_eq!(Keycode::from_ascii(b'|'), Keycode { modifiers: 2, code: 49 });
    assert_eq!(Keycode::from_ascii(b'/'), Keycode { modifiers: 0, code: 56 });
    assert_eq!(Keycode::from_ascii(b'?'), Keycode { modifiers: 0, code: 0 });
    assert_eq!(Keycode::from_ascii(b'>'), Keycode { modifiers: 2, code: 55 });
    assert_eq!(Keycode::from_ascii(b'~'), Keycode { modifiers: 2, code: 53 });
    // The zero byte matches the first unused slot of the unshifted table.
    assert_eq!(Keycode::from_ascii(0), Keycode { modifiers: 0, code: 0 });
}

#[test]
fn reports_layout() {
    assert_eq!(key_report(Keycode { modifiers: 2, code: 4 }), [2, 0, 4, 0, 0, 0, 0, 0]);
    assert_eq!(empty_report(), [0u8; 8]);
}

#[test]
fn string_reports_alternate_press_and_release() {
    let r = string_reports(b"aB?");
    assert_eq!(r.len(), 6);
    assert_eq!(r[0], [0, 0, 4, 0, 0, 0, 0, 0]);
    assert_eq!(r[1], [0u8; 8]);
    assert_eq!(r[2], [2, 0, 5, 0, 0, 0, 0, 0]);
    assert_eq!(r[3], [0u8; 8]);
    assert_eq!(r[4], [0u8; 8]);
    assert_eq!(r[5], [0u8; 8]);
    assert!(string_reports(b"").is_empty());
}

#[test]
fn descriptor_is_fixed() {
    let d = gadget_report_descriptor();
    assert_eq!(d.len(), 63);
    assert_eq!(&d[..4], &[0x05, 0x01, 0x09, 0x06]);
    assert_eq!(d[62], 0xc0);
    assert_eq!(d, gadget_report_descriptor());
}

fn send_with(text: &[u8], fail_at: Option<usize>) -> (Vec<[u8; 8]>, bool) {
    let mut sender = KeySender::new(text);
    let mut written = Vec::new();
    while let Some(rep) = sender.next_report() {
        let ok = fail_at != Some(written.len());
        written.push(rep);
        sender.record(ok);
    }
    (written, sender.succeeded())
}

#[test]
fn send_all_writes_two_per_byte() {
    let (written, ok) = send_with(b"hI1", None);
    assert!(ok);
    assert_eq!(written, string_reports(b"hI1"));
    assert_eq!(written.len(), 6);
    for (i, rep) in written.iter().enumerate() {
        if i % 2 == 1 {
            assert_eq!(*rep, [0u8; 8]);
        } else {
            assert_ne!(*rep, [0u8; 8]);
        }
    }
}

#[test]
fn send_stops_at_first_failed_write() {
    let (written, ok) = send_with(b"abc", Some(1));
    assert!(!ok);
    assert_eq!(written.len(), 2);
    assert_eq!(written[0], [0, 0, 4, 0, 0, 0, 0, 0]);
    assert_eq!(written[1], [0u8; 8]);
}

#[test]
fn progress_counts_attempts() {
    let mut p = Progress::new(3);
    assert_eq!(p.next_index(), Some(0));
    p.record(true);
    assert_eq!(p.next_index(), Some(1));
    p.record(false);
    assert_eq!(p.next_index(), None);
    assert_eq!(p.attempted(), 2);
    assert!(p.failed());
    assert!(!p.succeeded());
    let empty = Progress::new(0);
    assert_eq!(empty.next_index(), None);
    assert!(empty.succeeded());
}

fn path_of(a: &ConfigAction) -> String {
    match a {
        ConfigAction::CreatePath(p) | ConfigAction::RemovePath(p) => p.clone(),
        ConfigAction::WriteBytes(p, _) => p.clone(),
        ConfigAction::Symlink(_, l) => l.clone(),
    }
}

#[test]
fn command_run_stops_at_failed_action() {
    let actions: Vec<ConfigAction> =
        (1..=5).map(|i| ConfigAction::CreatePath(format!("/tmp/dir{}", i))).collect();
    let mut run = CommandRun::new(actions);
    let mut performed = Vec::new();
    while let Some(a) = run.next_action() {
        performed.push(path_of(a));
        let outcome = if performed.len() == 2 { Outcome::Exited(3) } else { Outcome::Completed };
        run.record(outcome);
    }
    assert_eq!(performed, vec!["/tmp/dir1".to_string(), "/tmp/dir2".to_string()]);
    match run.finish() {
        Err(CommandError::CommandFailed(what, status)) => {
            assert_eq!(what, "create /tmp/dir2");
            assert_eq!(status, 3);
        }
        other => panic!("unexpected {:?}", other),
    }
}

#[test]
fn command_run_all_succeed() {
    let mut run = CommandRun::new(deinit_actions());
    let mut n = 0;
    while run.next_action().is_some() {
        n += 1;
        run.record(Outcome::Exited(0));
    }
    assert_eq!(n, 2);
    assert!(run.finish().is_ok());
    assert!(CommandRun::new(Vec::new()).finish().is_ok());
}

#[test]
fn outcome_errors() {
    let a = ConfigAction::Symlink("/t".to_string(), "/l".to_string());
    assert!(outcome_error(&a, Outcome::Completed).is_none());
    assert!(outcome_error(&a, Outcome::Exited(0)).is_none());
    match outcome_error(&a, Outcome::NotLaunched("no such file".to_string())) {
        Some(CommandError::NotExecuted(m)) => assert_eq!(m, "no such file"),
        other => panic!("unexpected {:?}", other),
    }
    match outcome_error(&a, Outcome::Exited(2)) {
        Some(CommandError::CommandFailed(m, s)) => {
            assert_eq!(m, "link /l -> /t");
            assert_eq!(s, 2);
        }
        other => panic!("unexpected {:?}", other),
    }
    let w = ConfigAction::WriteBytes("/f".to_string(), vec![1]);
    match outcome_error(&w, Outcome::WriteFailed("denied".to_string())) {
        Some(CommandError::CommandFailed(m, s)) => {
            assert_eq!(m, "write /f -- denied");
            assert_eq!(s, 1);
        }
        other => panic!("unexpected {:?}", other),
    }
    match CommandError::failure("boom".to_string()) {
        CommandError::CommandFailed(m, s) => {
            assert_eq!(m, "boom");
            assert_eq!(s, 1);
        }
        other => panic!("unexpected {:?}", other),
    }
}

#[test]
fn describe_actions() {
    assert_eq!(describe(&ConfigAction::CreatePath("/a".to_string())), "create /a");
    assert_eq!(describe(&ConfigAction::RemovePath("/b".to_string())), "remove /b");
    assert_eq!(describe(&ConfigAction::WriteBytes("/c".to_string(), vec![])), "write /c");
}

#[test]
fn action_sequences() {
    let pre = pre_descriptor_actions();
    assert_eq!(pre.len(), 10);
    match &pre[1] {
        ConfigAction::WriteBytes(p, c) => {
            assert_eq!(p, "/config/usb_gadget/kb/idVendor");
            assert_eq!(c, b"0x1234");
        }
        other => panic!("unexpected {:?}", other),
    }
    let post = post_descriptor_actions();
    assert_eq!(post.len(), 2);
    match &post[1] {
        ConfigAction::WriteBytes(p, c) => {
            assert_eq!(p, "/config/usb_gadget/kb/UDC");
            assert_eq!(c, b"musb-hdrc.0.auto");
        }
        other => panic!("unexpected {:?}", other),
    }
    let all = init_actions();
    assert_eq!(all.len(), 13);
    match &all[10] {
        ConfigAction::WriteBytes(p, c) => {
            assert_eq!(*p, descriptor_path());
            assert_eq!(*c, gadget_report_descriptor());
        }
        other => panic!("unexpected {:?}", other),
    }
    let de = deinit_actions();
    assert_eq!(path_of(&de[0]), "/config/usb_gadget/kb/configs/c.1/hid.usb0");
    assert_eq!(path_of(&de[1]), "/config/usb_gadget/kb/functions/hid.usb0");
    assert_eq!(device_path(), "/dev/hidg0");
}

#[test]
fn error_messages() {
    assert_eq!(
        CommandError::NotExecuted("permission denied".to_string()).message(),
        "could not exec command: permission denied"
    );
    assert_eq!(
        CommandError::CommandFailed("create /a".to_string(), 1).message(),
        "create /a -- command failed with exit status 1"
    );
    assert_eq!(
        CommandError::CommandFailed("x".to_string(), 0).message(),
        "x -- command failed with exit status 0"
    );
    assert_eq!(
        CommandError::CommandFailed("x".to_string(), 1234567).message(),
        "x -- command failed with exit status 1234567"
    );
    assert_eq!(
        CommandError::CommandFailed("x".to_string(), -15).message(),
        "x -- command failed with exit status -15"
    );
    assert_eq!(
        CommandError::CommandFailed("x".to_string(), i32::MIN).message(),
        "x -- command failed with exit status -2147483648"
    );
    assert_eq!(
        CommandError::CommandFailed("x".to_string(), i32::MAX).message(),
        "x -- command failed with exit status 2147483647"
    );
}

#[test]
fn error_descriptions() {
    assert_eq!(CommandError::NotExecuted(String::new()).description(), "Could not exec command");
    assert_eq!(
        CommandError::CommandFailed(String::new(), 1).description(),
        "Command returned failed status"
    );
}
