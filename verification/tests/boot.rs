use onix_desktop::boot::{Boot, BootAction, BootEvent};

#[test]
fn boot_gives_up_after_twenty_checks() {
    let mut b = Boot::new();
    let mut checks = 0;
    let mut action = b.step(BootEvent::Start);
    loop {
        match action {
            BootAction::CheckHealth => {
                checks += 1;
                action = b.step(BootEvent::HealthFailed(format!("refused {checks}")));
            }
            BootAction::Pause => action = b.step(BootEvent::PauseOver),
            BootAction::ShowStatus { text, error } => {
                assert!(error);
                assert_eq!(text, "Не удалось подключиться к серверу Onix: refused 20");
                break;
            }
            _ => panic!("unexpected action"),
        }
    }
    assert_eq!(checks, 20);
    assert!(matches!(b.step(BootEvent::Start), BootAction::Wait));
}

#[test]
fn boot_connected_without_session() {
    let mut b = Boot::new();
    assert!(matches!(b.step(BootEvent::Start), BootAction::CheckHealth));
    assert!(matches!(b.step(BootEvent::HealthFailed("x".to_string())), BootAction::Pause));
    assert!(matches!(b.step(BootEvent::PauseOver), BootAction::CheckHealth));
    match b.step(BootEvent::HealthOk { signed_in: false }) {
        BootAction::ShowStatus { text, error } => {
            assert_eq!(text, "Сервер Onix подключён");
            assert!(!error);
        }
        _ => panic!("expected a status"),
    }
}

#[test]
fn boot_resumes_session() {
    let mut b = Boot::new();
    b.step(BootEvent::Start);
    assert!(matches!(b.step(BootEvent::HealthOk { signed_in: true }), BootAction::FetchProfile));
    assert!(matches!(b.step(BootEvent::ProfileLoaded), BootAction::EnterApp));
}

#[test]
fn boot_forgets_rejected_session() {
    let mut b = Boot::new();
    b.step(BootEvent::Start);
    b.step(BootEvent::HealthOk { signed_in: true });
    match b.step(BootEvent::ProfileFailed) {
        BootAction::ForgetSession { text } => assert_eq!(text, "Введите данные аккаунта"),
        _ => panic!("expected the session to be forgotten"),
    }
}

#[test]
fn boot_ignores_out_of_order_events() {
    let mut b = Boot::new();
    assert!(matches!(b.step(BootEvent::PauseOver), BootAction::Wait));
    assert!(matches!(b.step(BootEvent::ProfileLoaded), BootAction::Wait));
    assert!(matches!(b.step(BootEvent::Start), BootAction::CheckHealth));
}

#[test]
fn boot_connects_on_the_twentieth_check() {
    let mut b = Boot::new();
    assert!(matches!(b.step(BootEvent::Start), BootAction::CheckHealth));
    for i in 1..20 {
        assert!(matches!(b.step(BootEvent::HealthFailed(format!("e{i}"))), BootAction::Pause));
        assert!(matches!(b.step(BootEvent::PauseOver), BootAction::CheckHealth));
    }
    assert!(matches!(b.step(BootEvent::HealthOk { signed_in: true }), BootAction::FetchProfile));
    match b.step(BootEvent::ProfileFailed) {
        BootAction::ForgetSession { text } => assert_eq!(text, "Введите данные аккаунта"),
        _ => panic!("expected the session to be forgotten"),
    }
}
