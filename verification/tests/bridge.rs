use myriam::actors::Mult;
use myriam::local::Status;
use myriam::messaging::{Message, MsgError, Reply};
use myriam::remote::{bridge_step, HandleOpts};

#[test]
fn remote_spawning_and_messaging() {
    let mut mult = Mult { a: 2 };
    let mut status = Status::Ready;
    let opts = HandleOpts::new();

    let (reply, stop) = bridge_step(&mut mult, &mut status, &opts, Message::Task(14));

    assert!(matches!(reply, Ok(Reply::Task(28))));
    assert!(!stop);
}

#[test]
fn remote_ping() {
    let mut mult = Mult { a: 2 };
    let mut status = Status::Ready;
    let opts = HandleOpts::new();

    let (reply, stop) = bridge_step(&mut mult, &mut status, &opts, Message::Ping);

    assert!(matches!(reply, Ok(Reply::Accepted)));
    assert!(!stop);
}

#[test]
fn remote_stop() {
    let mut mult = Mult { a: 2 };
    let mut status = Status::Ready;
    let mut opts = HandleOpts::new();
    opts.allow_stop = true;

    let (reply, stop) = bridge_step(&mut mult, &mut status, &opts, Message::Stop);

    assert!(matches!(reply, Ok(Reply::Accepted)));
    assert!(stop);

    let (reply, _) = bridge_step(&mut mult, &mut status, &opts, Message::Ping);
    assert!(matches!(reply, Err(MsgError::Send)));
}

#[test]
fn disallow_mut() {
    let mut mult = Mult { a: 2 };
    let mut status = Status::Ready;
    let opts = HandleOpts::new();

    let (reply, stop) = bridge_step(&mut mult, &mut status, &opts, Message::TaskMut(6));

    assert!(matches!(reply, Err(MsgError::NotAllowed)));
    assert!(!stop);

    // the handler was not invoked: the factor is unchanged
    assert_eq!(2, mult.a);
    let (reply, _) = bridge_step(&mut mult, &mut status, &opts, Message::Task(3));
    assert!(matches!(reply, Ok(Reply::Task(6))));
}

#[test]
fn disallow_stop_by_default() {
    let mut mult = Mult { a: 2 };
    let mut status = Status::Ready;
    let opts = HandleOpts::new();

    let (reply, stop) = bridge_step(&mut mult, &mut status, &opts, Message::Stop);

    assert!(matches!(reply, Err(MsgError::NotAllowed)));
    assert!(!stop);

    // the actor is still reachable
    let (reply, _) = bridge_step(&mut mult, &mut status, &opts, Message::Ping);
    assert!(matches!(reply, Ok(Reply::Accepted)));
}

#[test]
fn bridge_mediated_call() {
    let mut mult = Mult { a: 5 };
    let mut status = Status::Ready;
    let opts = HandleOpts::new();

    let (reply, _) = bridge_step(&mut mult, &mut status, &opts, Message::Task(14));

    assert!(matches!(reply, Ok(Reply::Task(70))));
}

#[test]
fn allow_mut_flag_admits_mutation() {
    let mut mult = Mult { a: 2 };
    let mut status = Status::Ready;
    let mut opts = HandleOpts::new();
    opts.allow_mut = true;

    let (reply, _) = bridge_step(&mut mult, &mut status, &opts, Message::TaskMut(9));
    assert!(matches!(reply, Ok(Reply::Accepted)));
    assert_eq!(9, mult.a);
}

#[test]
fn default_flags_are_off() {
    let opts = HandleOpts::new();
    assert!(!opts.allow_mut());
    assert!(!opts.allow_stop());

    let r: Result<(), MsgError<String>> = opts.validate(&Message::TaskMut(1u32));
    assert!(matches!(r, Err(MsgError::NotAllowed)));
    let r: Result<(), MsgError<String>> = opts.validate(&Message::<u32>::Stop);
    assert!(matches!(r, Err(MsgError::NotAllowed)));
    let r: Result<(), MsgError<String>> = opts.validate(&Message::Task(1u32));
    assert!(matches!(r, Ok(())));
    let r: Result<(), MsgError<String>> = opts.validate(&Message::<u32>::Ping);
    assert!(matches!(r, Ok(())));
}
