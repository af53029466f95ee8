use neurust::device_flow::{DeviceFlowInit, LoginStep, PollResponse};

fn poll(status: &str, token: Option<&str>) -> PollResponse {
    PollResponse { status: String::from(status), token: token.map(String::from), message: None }
}

#[test]
fn verified_poll_stores_the_token() {
    assert_eq!(
        poll("verified", Some("neurust_jwt_W")).next_step(),
        LoginStep::Store { token: String::from("neurust_jwt_W") }
    );
}

#[test]
fn verified_poll_without_token_waits() {
    assert_eq!(poll("verified", None).next_step(), LoginStep::Wait);
}

#[test]
fn expired_poll_gives_up() {
    assert_eq!(poll("expired", None).next_step(), LoginStep::GiveUp);
    assert_eq!(poll("expired", Some("t")).next_step(), LoginStep::GiveUp);
    assert_eq!(PollResponse::expired().next_step(), LoginStep::GiveUp);
}

#[test]
fn any_other_poll_waits() {
    assert_eq!(poll("pending", None).next_step(), LoginStep::Wait);
    assert_eq!(poll("", Some("t")).next_step(), LoginStep::Wait);
    assert_eq!(poll("Verified", Some("t")).next_step(), LoginStep::Wait);
}

#[test]
fn expired_answer_carries_nothing() {
    assert_eq!(PollResponse::expired(), poll("expired", None));
}

#[test]
fn device_flow_init_holds_its_fields() {
    let init = DeviceFlowInit {
        device_code: String::from("d"),
        user_code: String::from("1234-5678"),
        verification_uri: String::from("http://localhost:3000/login"),
        interval: 5,
    };
    assert_eq!(init.clone(), init);
    assert_eq!(init.interval, 5);
}
