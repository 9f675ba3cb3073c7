//! The operation flows driven through the engine facade: registration,
//! submission and audit, as a transport collaborator would drive them.

use stsp::engine::{Engine, Entity, Event, Request};
use stsp::state::{Application, ApplicationDraft, Data, User};

fn bootstrapped() -> Engine {
    let mut engine = Engine::new();
    engine.bootstrap("creator".to_string()).unwrap();
    engine
}

fn laowang() -> User {
    User {
        user_id: "laowang".to_string(),
        address: "laowangaddress".to_string(),
        org: "xalhh".to_string(),
        role: vec!["ROLE_0002".to_string()],
    }
}

fn baiyangdian_draft() -> ApplicationDraft {
    ApplicationDraft {
        enterprise: "baiyangdian".to_string(),
        time_stamp: 123,
        application_id: "1".to_string(),
        application_type: "xixi".to_string(),
        application_entity: "haha".to_string(),
        data: vec![Data { data_name: "shit".to_string(), data_hash: "wow".to_string() }],
        permission: vec!["laowangaddress".to_string()],
    }
}

fn event_user(event: Event) -> User {
    match event.entity {
        Entity::User(user) => user,
        Entity::Application(_) => panic!("expected a user entity"),
    }
}

fn event_application(event: Event) -> Application {
    match event.entity {
        Entity::User(_) => panic!("expected an application entity"),
        Entity::Application(application) => application,
    }
}

#[test]
fn create_user() {
    let mut engine = bootstrapped();
    let caller = "creator".to_string();
    let event = engine
        .execute(&caller, Request::RegisterUser { user: laowang() })
        .unwrap();
    assert_eq!("create_user", event.operation);
    let user = event_user(event);
    assert_eq!("laowang", user.user_id);
}

#[test]
fn set_application() {
    let mut engine = bootstrapped();
    let caller = "creator".to_string();
    engine
        .execute(&caller, Request::RegisterUser { user: laowang() })
        .unwrap();

    let caller = "laowangaddress".to_string();
    let event = engine
        .execute(&caller, Request::SubmitApplication { draft: baiyangdian_draft() })
        .unwrap();
    assert_eq!("create_application", event.operation);
    let application = event_application(event);
    assert_eq!("1", application.application_id);
}

#[test]
fn get_application() {
    let mut engine = bootstrapped();
    let caller = "creator".to_string();
    engine
        .execute(&caller, Request::RegisterUser { user: laowang() })
        .unwrap();

    let laolv = User {
        user_id: "laolv".to_string(),
        address: "laolvaddress".to_string(),
        org: "xiongxian".to_string(),
        role: vec!["ROLE_0003".to_string()],
    };
    engine
        .execute(&caller, Request::RegisterUser { user: laolv })
        .unwrap();

    let caller = "laowangaddress".to_string();
    let event = engine
        .execute(&caller, Request::SubmitApplication { draft: baiyangdian_draft() })
        .unwrap();
    let application = event_application(event);
    assert_eq!("1", application.application_id);

    let updated = Application {
        enterprise: "baiyangdian".to_string(),
        time_stamp: 123,
        application_id: "1".to_string(),
        application_type: "xixi".to_string(),
        application_entity: "haha".to_string(),
        data: vec![Data { data_name: "shit".to_string(), data_hash: "wow".to_string() }],
        permission: vec!["laowangaddress".to_string()],
        result: 2,
        reason: "just don't".to_string(),
    };
    let event = engine
        .execute(&caller, Request::AuditApplication { application: updated })
        .unwrap();
    assert_eq!("audit_application", event.operation);
    let application = event_application(event);
    assert_eq!("xixi", application.application_type);
}

#[test]
fn read_application_through_facade() {
    let mut engine = bootstrapped();
    let caller = "creator".to_string();
    engine
        .execute(&caller, Request::RegisterUser { user: laowang() })
        .unwrap();
    let caller = "laowangaddress".to_string();
    engine
        .execute(&caller, Request::SubmitApplication { draft: baiyangdian_draft() })
        .unwrap();
    let event = engine
        .execute(&caller, Request::ReadApplication { application_id: "1".to_string() })
        .unwrap();
    assert_eq!("read_application", event.operation);
    let application = event_application(event);
    assert_eq!("1", application.application_id);
    assert_eq!(0, application.result);
}
