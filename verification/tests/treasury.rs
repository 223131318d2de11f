use ico_manager::IcoError;
use ico_manager::manager::IcoManager;
use ico_manager::token::TokenId;

fn owner() -> Vec<u8> {
    vec![1u8, 2, 3]
}

fn stranger() -> Vec<u8> {
    vec![9u8, 9]
}

fn sale() -> IcoManager {
    IcoManager {
        owner: owner(),
        token_id: TokenId::Esdt(b"ICO-123456".to_vec()),
        token_price: 2,
        buy_limit: None,
        activation_timestamp: 100,
        duration_timestamp: 50,
    }
}

#[test]
fn withdraw_sweeps_the_whole_proceeds() {
    let m = sale();
    let t = m.withdraw(owner(), 1234).unwrap();
    assert_eq!(t.to, owner());
    assert_eq!(t.token, TokenId::Egld);
    assert_eq!(t.amount, 1234);
}

#[test]
fn withdraw_fails_on_an_empty_balance() {
    let m = sale();
    assert_eq!(m.withdraw(owner(), 0), Err(IcoError::NothingToWithdraw));
}

#[test]
fn withdraw_rejects_a_non_owner() {
    let m = sale();
    assert_eq!(m.withdraw(stranger(), 1234), Err(IcoError::Unauthorized));
}

#[test]
fn withdraw_esdt_sweeps_the_full_balance_not_the_request() {
    let m = sale();
    let t = m.withdrawEsdt(owner(), 5, 50).unwrap();
    assert_eq!(t.to, owner());
    assert_eq!(t.token, TokenId::Esdt(b"ICO-123456".to_vec()));
    assert_eq!(t.amount, 50);
}

#[test]
fn withdraw_esdt_fails_when_the_request_exceeds_the_balance() {
    let m = sale();
    assert_eq!(
        m.withdrawEsdt(owner(), 51, 50),
        Err(IcoError::InsufficientInventory)
    );
}

#[test]
fn withdraw_esdt_accepts_a_request_equal_to_the_balance() {
    let m = sale();
    let t = m.withdrawEsdt(owner(), 50, 50).unwrap();
    assert_eq!(t.amount, 50);
}

#[test]
fn withdraw_esdt_rejects_a_non_owner() {
    let m = sale();
    assert_eq!(m.withdrawEsdt(stranger(), 5, 50), Err(IcoError::Unauthorized));
}
