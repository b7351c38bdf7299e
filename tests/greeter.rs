use ci_proof_core::{say_hello, ProgramLog, SayHello, GREETING};

fn count(log: &ProgramLog, message: &str) -> usize {
    log.messages().iter().filter(|m| m.as_str() == message).count()
}

#[test]
fn say_hello_succeeds_and_logs_greeting() {
    let mut log = ProgramLog::new();
    let r = say_hello(SayHello {}, &mut log);
    assert!(r.is_ok());
    assert!(log
        .messages()
        .iter()
        .any(|m| m.contains("Hello from CI Proof Core!")));
}

#[test]
fn greeting_text_is_fixed() {
    assert_eq!(GREETING, "👋 Hello from CI Proof Core!");
}

#[test]
fn invoke_with_no_accounts_succeeds() {
    let mut log = ProgramLog::new();
    for _ in 0..5 {
        assert!(say_hello(SayHello {}, &mut log).is_ok());
    }
}

#[test]
fn greeting_logged_once_per_invocation() {
    let mut log = ProgramLog::new();
    say_hello(SayHello {}, &mut log).unwrap();
    assert_eq!(log.messages().len(), 1);
    assert_eq!(count(&log, GREETING), 1);
    say_hello(SayHello {}, &mut log).unwrap();
    assert_eq!(count(&log, GREETING), 2);
}

#[test]
fn greeting_appended_after_earlier_lines() {
    let mut log = ProgramLog::new();
    log.write("earlier");
    say_hello(SayHello {}, &mut log).unwrap();
    assert_eq!(log.messages().len(), 2);
    assert_eq!(log.messages()[0], "earlier");
    assert_eq!(log.messages()[1], GREETING);
    assert_eq!(count(&log, "earlier"), 1);
}

#[test]
fn invoking_twice_gives_same_output() {
    let mut first = ProgramLog::new();
    say_hello(SayHello {}, &mut first).unwrap();
    let mut second = ProgramLog::new();
    say_hello(SayHello {}, &mut second).unwrap();
    assert_eq!(first.messages(), second.messages());

    let mut both = ProgramLog::new();
    say_hello(SayHello {}, &mut both).unwrap();
    say_hello(SayHello {}, &mut both).unwrap();
    assert_eq!(both.messages(), &[GREETING.to_string(), GREETING.to_string()]);
}
