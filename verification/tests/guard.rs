use dexrouter::asset::AssetInfo;
use dexrouter::error::ContractError;
use dexrouter::guard::assert_minimum_receive;

fn native(denom: &str) -> AssetInfo {
    AssetInfo::NativeToken { denom: denom.to_string() }
}

#[test]
fn sufficient_gain_passes() {
    // Before 100, minimum 50, balance now 200: gained 100 >= 50.
    let r = assert_minimum_receive(native("uyuy"), 100, 50, "bob1recipient".to_string(), 200);
    let resp = r.unwrap();
    assert!(resp.messages.is_empty());
}

#[test]
fn insufficient_gain_reports_required_and_actual() {
    // Before 100, minimum 50, balance now 130: gained 30 < 50.
    let r = assert_minimum_receive(native("uyuy"), 100, 50, "bob1recipient".to_string(), 130);
    assert_eq!(
        r,
        Err(ContractError::InsufficientOutput { required: 50, actual: 30 })
    );
}

#[test]
fn exact_minimum_passes() {
    let r = assert_minimum_receive(native("uyuy"), 100, 30, "bob1recipient".to_string(), 130);
    assert!(r.is_ok());
}

#[test]
fn balance_drop_is_underflow_even_with_zero_minimum() {
    // Before 100, minimum 0, balance now 90: the balance fell, which is an
    // invariant breach, never a wrapped difference.
    let r = assert_minimum_receive(native("uyuy"), 100, 0, "bob1recipient".to_string(), 90);
    assert_eq!(r, Err(ContractError::BalanceUnderflow));
}

#[test]
fn malformed_native_denom_is_invalid_asset() {
    let r = assert_minimum_receive(native("U!"), 100, 0, "bob1recipient".to_string(), 200);
    assert_eq!(r, Err(ContractError::InvalidAsset));
}

#[test]
fn malformed_token_address_is_invalid_asset() {
    let asset = AssetInfo::Token { contract_addr: "NOT an address".to_string() };
    let r = assert_minimum_receive(asset, 0, 0, "bob1recipient".to_string(), 0);
    assert_eq!(r, Err(ContractError::InvalidAsset));
}

#[test]
fn well_formed_token_address_passes_the_asset_check() {
    let asset = AssetInfo::Token { contract_addr: "token1contract".to_string() };
    let r = assert_minimum_receive(asset, 10, 5, "bob1recipient".to_string(), 15);
    assert!(r.is_ok());
}

#[test]
fn asset_check_comes_before_underflow() {
    // Malformed asset and falling balance: the asset error wins.
    let r = assert_minimum_receive(native("x"), 100, 0, "bob1recipient".to_string(), 90);
    assert_eq!(r, Err(ContractError::InvalidAsset));
}
