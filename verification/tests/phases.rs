use ico_manager::manager::IcoManager;
use ico_manager::phase::Status;
use ico_manager::token::TokenId;

fn sale(activation: u64, duration: u64) -> IcoManager {
    IcoManager {
        owner: vec![1u8, 2, 3],
        token_id: TokenId::Esdt(b"ICO-123456".to_vec()),
        token_price: 2,
        buy_limit: None,
        activation_timestamp: activation,
        duration_timestamp: duration,
    }
}

#[test]
fn status_not_started_before_activation() {
    let m = sale(100, 50);
    assert_eq!(m.status(0), Status::NotStarted);
    assert_eq!(m.status(99), Status::NotStarted);
}

#[test]
fn status_started_inside_window() {
    let m = sale(100, 50);
    assert_eq!(m.status(100), Status::Started);
    assert_eq!(m.status(125), Status::Started);
    assert_eq!(m.status(149), Status::Started);
}

#[test]
fn status_ended_from_window_close_on() {
    let m = sale(100, 50);
    assert_eq!(m.status(150), Status::Ended);
    assert_eq!(m.status(u64::MAX), Status::Ended);
}

#[test]
fn status_zero_duration_ends_immediately() {
    let m = sale(100, 0);
    assert_eq!(m.status(99), Status::NotStarted);
    assert_eq!(m.status(100), Status::Ended);
}

#[test]
fn require_activation_tracks_the_window() {
    let m = sale(100, 50);
    assert_eq!(
        m.require_activation(99),
        Err(ico_manager::IcoError::NotYetStarted)
    );
    assert_eq!(m.require_activation(100), Ok(()));
    assert_eq!(m.require_activation(149), Ok(()));
    assert_eq!(
        m.require_activation(150),
        Err(ico_manager::IcoError::SaleFinished)
    );
}

#[test]
fn status_window_reaching_end_of_time() {
    let m = sale(u64::MAX, u64::MAX);
    assert_eq!(m.status(u64::MAX - 1), Status::NotStarted);
    assert_eq!(m.status(u64::MAX), Status::Started);
}
