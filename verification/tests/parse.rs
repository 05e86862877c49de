use rsh::command::ShellCmd;

fn words(ws: &[&str]) -> Vec<String> {
    ws.iter().map(|w| w.to_string()).collect()
}

#[test]
fn plain_tokens_become_execute() {
    let v = words(&["ls", "-l", "src"]);
    match ShellCmd::new(&v).unwrap() {
        ShellCmd::Exec { args } => assert_eq!(args, v),
        other => panic!("expected Exec, got {:?}", kind(&other)),
    }
}

#[test]
fn blank_line_becomes_nothing() {
    let v = words(&[""]);
    assert!(matches!(ShellCmd::new(&v).unwrap(), ShellCmd::Nothing));
}

#[test]
fn empty_token_list_becomes_empty_execute() {
    let v: Vec<String> = Vec::new();
    match ShellCmd::new(&v).unwrap() {
        ShellCmd::Exec { args } => assert!(args.is_empty()),
        other => panic!("expected Exec, got {:?}", kind(&other)),
    }
}

#[test]
fn semicolon_splits_into_list() {
    let v = words(&["echo", "a", ";", "echo", "b"]);
    match ShellCmd::new(&v).unwrap() {
        ShellCmd::List { left, right } => {
            match *left {
                ShellCmd::Exec { args } => assert_eq!(args, words(&["echo", "a"])),
                other => panic!("expected Exec on the left, got {:?}", kind(&other)),
            }
            match *right {
                ShellCmd::Exec { args } => assert_eq!(args, words(&["echo", "b"])),
                other => panic!("expected Exec on the right, got {:?}", kind(&other)),
            }
        }
        other => panic!("expected List, got {:?}", kind(&other)),
    }
}

#[test]
fn semicolon_binds_looser_than_pipe() {
    // `;` after the `|` still takes the top of the tree.
    let v = words(&["a", "|", "b", ";", "c"]);
    match ShellCmd::new(&v).unwrap() {
        ShellCmd::List { left, right } => {
            assert!(matches!(*left, ShellCmd::Pipe { .. }));
            assert!(matches!(*right, ShellCmd::Exec { .. }));
        }
        other => panic!("expected List, got {:?}", kind(&other)),
    }
    // And the other way round.
    let v = words(&["a", ";", "b", "|", "c"]);
    match ShellCmd::new(&v).unwrap() {
        ShellCmd::List { left, right } => {
            assert!(matches!(*left, ShellCmd::Exec { .. }));
            assert!(matches!(*right, ShellCmd::Pipe { .. }));
        }
        other => panic!("expected List, got {:?}", kind(&other)),
    }
}

#[test]
fn pipe_splits_at_first_bar() {
    let v = words(&["echo", "hi", "|", "wc", "-l"]);
    match ShellCmd::new(&v).unwrap() {
        ShellCmd::Pipe { left, right } => {
            match *left {
                ShellCmd::Exec { args } => assert_eq!(args, words(&["echo", "hi"])),
                other => panic!("expected Exec on the left, got {:?}", kind(&other)),
            }
            match *right {
                ShellCmd::Exec { args } => assert_eq!(args, words(&["wc", "-l"])),
                other => panic!("expected Exec on the right, got {:?}", kind(&other)),
            }
        }
        other => panic!("expected Pipe, got {:?}", kind(&other)),
    }
}

#[test]
fn cd_with_one_path_is_change_directory() {
    let v = words(&["cd", "/tmp"]);
    match ShellCmd::new(&v).unwrap() {
        ShellCmd::Chdir { path } => assert_eq!(path, "/tmp"),
        other => panic!("expected Chdir, got {:?}", kind(&other)),
    }
}

#[test]
fn cd_with_wrong_arity_is_plain_execute() {
    let v = words(&["cd"]);
    match ShellCmd::new(&v).unwrap() {
        ShellCmd::Exec { args } => assert_eq!(args, v),
        other => panic!("expected Exec, got {:?}", kind(&other)),
    }
    let v = words(&["cd", "a", "b"]);
    match ShellCmd::new(&v).unwrap() {
        ShellCmd::Exec { args } => assert_eq!(args, v),
        other => panic!("expected Exec, got {:?}", kind(&other)),
    }
}

#[test]
fn output_redirect_opens_target_for_writing() {
    let target = "/tmp/rsh_test_redirect_out";
    let v = words(&["cat", ">", target]);
    match ShellCmd::new(&v).unwrap() {
        ShellCmd::Redir { command, descriptor, readmode } => {
            assert!(!readmode);
            match *command {
                ShellCmd::Exec { args } => assert_eq!(args, words(&["cat"])),
                other => panic!("expected Exec inside, got {:?}", kind(&other)),
            }
            drop(descriptor);
        }
        other => panic!("expected Redir, got {:?}", kind(&other)),
    }
    // The build itself created the file.
    let v = words(&["cat", "<", target]);
    match ShellCmd::new(&v).unwrap() {
        ShellCmd::Redir { readmode, .. } => assert!(readmode),
        other => panic!("expected Redir, got {:?}", kind(&other)),
    }
}

#[test]
fn redirect_round_trip_preserves_content() {
    // What goes out through a write-redirect descriptor comes back in
    // through a read-redirect descriptor on the same file.
    let target = "/tmp/rsh_test_round_trip";
    let v = words(&["cat", ">", target]);
    match ShellCmd::new(&v).unwrap() {
        ShellCmd::Redir { descriptor, readmode, .. } => {
            assert!(!readmode);
            let n = rustix::io::write(&descriptor, b"hello, descriptor").unwrap();
            assert_eq!(n, b"hello, descriptor".len());
        }
        other => panic!("expected Redir, got {:?}", kind(&other)),
    }
    let v = words(&["cat", "<", target]);
    match ShellCmd::new(&v).unwrap() {
        ShellCmd::Redir { descriptor, readmode, .. } => {
            assert!(readmode);
            let mut buf = [0u8; 64];
            let n = rustix::io::read(&descriptor, &mut buf[..]).unwrap();
            assert_eq!(&buf[..n], b"hello, descriptor");
        }
        other => panic!("expected Redir, got {:?}", kind(&other)),
    }
}

#[test]
fn output_redirect_found_before_earlier_input_redirect() {
    // `>` outranks `<` even when the `<` comes first in the line.
    let pre = "/tmp/rsh_test_priority_in";
    let out = "/tmp/rsh_test_priority_out";
    // Create the input file first; the build of `>` does that by itself.
    ShellCmd::new(&words(&["t", ">", pre])).unwrap();
    let v = words(&["cat", "<", pre, ">", out]);
    match ShellCmd::new(&v).unwrap() {
        ShellCmd::Redir { command, readmode, .. } => {
            assert!(!readmode);
            match *command {
                ShellCmd::Redir { command, readmode, .. } => {
                    assert!(readmode);
                    match *command {
                        ShellCmd::Exec { args } => assert_eq!(args, words(&["cat"])),
                        other => panic!("expected Exec inside, got {:?}", kind(&other)),
                    }
                }
                other => panic!("expected inner Redir, got {:?}", kind(&other)),
            }
        }
        other => panic!("expected Redir, got {:?}", kind(&other)),
    }
}

#[test]
fn tokens_after_redirect_target_are_dropped() {
    let target = "/tmp/rsh_test_trailing";
    let v = words(&["echo", "a", ">", target, "ignored"]);
    match ShellCmd::new(&v).unwrap() {
        ShellCmd::Redir { command, .. } => match *command {
            ShellCmd::Exec { args } => assert_eq!(args, words(&["echo", "a"])),
            other => panic!("expected Exec inside, got {:?}", kind(&other)),
        },
        other => panic!("expected Redir, got {:?}", kind(&other)),
    }
}

#[test]
fn unopenable_read_target_is_a_build_error() {
    let v = words(&["cat", "<", "/tmp/rsh_test_no_such_file_anywhere"]);
    let err = ShellCmd::new(&v).unwrap_err();
    assert_ne!(err.code, 0);
}

#[test]
fn targets_present_accepts_complete_redirects() {
    assert!(rsh::command::targets_present(&words(&["a", ";", "b"])));
    assert!(rsh::command::targets_present(&words(&["a", ">", "f"])));
    assert!(rsh::command::targets_present(&words(&[""])));
    assert!(rsh::command::targets_present(&words(&["cd", ">"])));
}

#[test]
fn targets_present_rejects_missing_file_names() {
    assert!(!rsh::command::targets_present(&words(&["a", ">"])));
    assert!(!rsh::command::targets_present(&words(&["a", "<"])));
    assert!(!rsh::command::targets_present(&words(&["a", ">", ";", "b"])));
}

fn kind(c: &ShellCmd) -> &'static str {
    match c {
        ShellCmd::Nothing => "Nothing",
        ShellCmd::Exec { .. } => "Exec",
        ShellCmd::Redir { .. } => "Redir",
        ShellCmd::Pipe { .. } => "Pipe",
        ShellCmd::Chdir { .. } => "Chdir",
        ShellCmd::List { .. } => "List",
    }
}
