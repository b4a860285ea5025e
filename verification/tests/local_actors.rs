use myriam::actors::{Actor, Mult};
use myriam::local::{run_mailbox, step, Status};
use myriam::messaging::{Message, MsgError, Reply};

#[test]
fn direct_message() {
    let a = Mult { a: 5 };

    assert_eq!(10, a.handler(2).unwrap());
}

#[test]
fn local_spawning_and_messaging() {
    let mut mult = Mult { a: 2 };
    let mut status = Status::Ready;

    let reply = step(&mut mult, &mut status, Message::Task(15)).unwrap();

    assert!(matches!(reply, Reply::Task(30)));
}

#[test]
fn local_ping() {
    let mut mult = Mult { a: 2 };
    let mut status = Status::Ready;

    let reply = step(&mut mult, &mut status, Message::Ping).unwrap();

    assert!(matches!(reply, Reply::Accepted));
}

#[test]
fn local_stop() {
    let mut mult = Mult { a: 2 };
    let mut status = Status::Ready;

    let reply = step(&mut mult, &mut status, Message::Stop).unwrap();
    assert!(matches!(reply, Reply::Accepted));

    step(&mut mult, &mut status, Message::Ping).unwrap_err();
}

#[test]
fn local_echo() {
    let mut mult = Mult { a: 5 };
    let mut status = Status::Ready;

    let reply = step(&mut mult, &mut status, Message::Task(3)).unwrap();
    assert!(matches!(reply, Reply::Task(15)));

    let reply = step(&mut mult, &mut status, Message::Ping).unwrap();
    assert!(matches!(reply, Reply::Accepted));

    let reply = step(&mut mult, &mut status, Message::Stop).unwrap();
    assert!(matches!(reply, Reply::Accepted));

    step(&mut mult, &mut status, Message::Ping).unwrap_err();
}

#[test]
fn mailbox_replies_in_order() {
    let mut mult = Mult { a: 2 };
    let mut status = Status::Ready;

    let replies = run_mailbox(
        &mut mult,
        &mut status,
        vec![Message::Task(1), Message::Task(2), Message::Task(3)],
    );

    assert_eq!(3, replies.len());
    assert!(matches!(replies[0], Ok(Reply::Task(2))));
    assert!(matches!(replies[1], Ok(Reply::Task(4))));
    assert!(matches!(replies[2], Ok(Reply::Task(6))));
}

#[test]
fn stop_is_terminal_in_mailbox() {
    let mut mult = Mult { a: 2 };
    let mut status = Status::Ready;

    let replies = run_mailbox(
        &mut mult,
        &mut status,
        vec![Message::Stop, Message::Ping, Message::Task(1)],
    );

    assert!(matches!(replies[0], Ok(Reply::Accepted)));
    assert!(matches!(replies[1], Err(MsgError::Send)));
    assert!(matches!(replies[2], Err(MsgError::Send)));
}

#[test]
fn mutating_handler_updates_factor() {
    let mut mult = Mult { a: 2 };
    let mut status = Status::Ready;

    let reply = step(&mut mult, &mut status, Message::TaskMut(7)).unwrap();
    assert!(matches!(reply, Reply::Accepted));

    let reply = step(&mut mult, &mut status, Message::Task(3)).unwrap();
    assert!(matches!(reply, Reply::Task(21)));
}

#[test]
fn handler_wraps_on_overflow() {
    let a = Mult { a: u32::MAX };

    assert_eq!(4294967294, a.handler(2).unwrap());
}

#[test]
fn user_error_maps_to_task_error() {
    struct Failing;
    // an actor whose read-only handler always fails; the *_spec items
    // are the ghost descriptions of the handlers and are never run
    impl Actor<u32, u32, String> for Failing {
        fn handler_spec(&self, _input: u32) -> Result<u32, String> {
            Err(String::from("uh oh"))
        }

        fn handler_mut_state_spec(&self, _input: u32) -> Self {
            Failing
        }

        fn handler_mut_result_spec(&self, _input: u32) -> Result<Option<u32>, String> {
            Ok(None)
        }

        fn handler(&self, _input: u32) -> Result<u32, String> {
            Err(String::from("uh oh"))
        }

        fn handler_mut(&mut self, _input: u32) -> Result<Option<u32>, String> {
            Ok(None)
        }
    }

    let mut actor = Failing;
    let mut status = Status::Ready;
    let err = step(&mut actor, &mut status, Message::Task(1)).unwrap_err();
    assert!(matches!(err, MsgError::Task(ref s) if s == "uh oh"));
}

#[test]
fn mailbox_mutation_ordering() {
    let mut mult = Mult { a: 2 };
    let mut status = Status::Ready;

    let replies = run_mailbox(
        &mut mult,
        &mut status,
        vec![Message::TaskMut(3), Message::Task(2)],
    );

    assert!(matches!(replies[0], Ok(Reply::Accepted)));
    assert!(matches!(replies[1], Ok(Reply::Task(6))));
}
