use after_effects::dispatch::{report, Outcome};
use after_effects::error::Error;
use after_effects::plugin::{Reply, MESSAGE_LIMIT};

#[test]
fn success_is_status_zero_without_a_message() {
    let mut reply = Reply::new();
    reply.set_return_msg(b"kept");
    assert_eq!(report(Outcome::Completed(Ok(())), &mut reply), 0);
    assert_eq!(reply.return_msg, b"kept".to_vec());
    assert!(!reply.display_error);
}

#[test]
fn an_error_is_its_code_and_its_name() {
    let mut reply = Reply::new();
    assert_eq!(report(Outcome::Completed(Err(Error::LockFailed)), &mut reply), 1025);
    assert_eq!(reply.return_msg, b"EffectMain returned error: LockFailed".to_vec());
    assert!(reply.display_error);
    assert_eq!(report(Outcome::Completed(Err(Error::CorruptData)), &mut reply), 2);
    assert_eq!(reply.return_msg, b"EffectMain returned error: CorruptData".to_vec());
}

#[test]
fn an_interrupt_by_the_user_is_reported_without_a_message() {
    let mut reply = Reply::new();
    assert_eq!(report(Outcome::Completed(Err(Error::InterruptCancel)), &mut reply), 517);
    assert!(reply.return_msg.is_empty());
    assert!(!reply.display_error);
}

#[test]
fn a_defect_is_a_generic_failure_with_what_it_said() {
    let mut reply = Reply::new();
    let status = report(Outcome::Defect(b"index out of bounds".to_vec()), &mut reply);
    assert_eq!(status, 1);
    assert_eq!(status, Error::Generic.status_code());
    assert_eq!(reply.return_msg, b"EffectMain panicked! index out of bounds".to_vec());
    assert!(reply.display_error);
}

#[test]
fn a_long_message_is_cut_off_not_refused() {
    assert_eq!(MESSAGE_LIMIT, 255);
    let mut reply = Reply::new();
    let said = vec![b'x'; 1000];
    assert_eq!(report(Outcome::Defect(said), &mut reply), 1);
    assert_eq!(reply.return_msg.len(), 255);
    assert_eq!(&reply.return_msg[..21], b"EffectMain panicked! ");
    assert!(reply.return_msg[21..].iter().all(|b| *b == b'x'));

    let mut reply = Reply::new();
    reply.set_return_msg(&[7; 255]);
    assert_eq!(reply.return_msg, vec![7; 255]);
    reply.set_return_msg(&[8; 256]);
    assert_eq!(reply.return_msg, vec![8; 255]);
    reply.set_error_msg(&[]);
    assert!(reply.return_msg.is_empty());
    assert!(reply.display_error);
}

#[test]
fn every_status_is_in_the_domain() {
    let domain = [0, 1, 2, 4, 13, 512, 513, 514, 515, 516, 517, 1024, 1025, 1026, 1027, 1028];
    let outcomes = [
        Outcome::Completed(Ok(())),
        Outcome::Completed(Err(Error::Generic)),
        Outcome::Completed(Err(Error::RegistryFrozen)),
        Outcome::Completed(Err(Error::MissingSuite)),
        Outcome::Defect(vec![]),
        Outcome::Defect(vec![0xff, 0xfe]),
    ];
    for outcome in outcomes {
        let mut reply = Reply::new();
        let status = report(outcome, &mut reply);
        assert!(domain.contains(&status));
        assert!(reply.return_msg.len() <= MESSAGE_LIMIT);
    }
}
