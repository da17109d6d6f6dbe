use keylime_agent::revocation::{screen_notice, NoticeAction, SignatureCheck};

#[test]
fn validly_signed_notice_triggers_remediation() {
    assert_eq!(screen_notice(SignatureCheck::Valid), NoticeAction::Remediate);
}

#[test]
fn badly_signed_notice_is_dropped() {
    assert_eq!(screen_notice(SignatureCheck::Invalid), NoticeAction::Drop);
}

#[test]
fn unsigned_notice_is_dropped() {
    assert_eq!(screen_notice(SignatureCheck::Missing), NoticeAction::Drop);
}

#[test]
fn one_remediation_for_each_valid_notice_of_a_run() {
    let run = [
        SignatureCheck::Invalid,
        SignatureCheck::Valid,
        SignatureCheck::Missing,
        SignatureCheck::Valid,
        SignatureCheck::Invalid,
    ];
    let mut remediations = 0;
    for check in run {
        if screen_notice(check) == NoticeAction::Remediate {
            remediations += 1;
        }
    }
    assert_eq!(remediations, 2);
}
