use presale::errors::PresaleError;
use presale::sale::{buy_with_voucher, initialize_sale, BuyWithVoucher, InitializeSale};
use presale::state::{BuyerEscrow, SaleConfig, VoucherData};
use presale::voucher::voucher_message;

fn id(b: u8) -> [u8; 32] {
    [b; 32]
}

#[test]
fn voucher_message_lays_the_fields_out_byte_exactly() {
    let v = VoucherData {
        buyer: id(0x11),
        sale: id(0x22),
        max_allocation: 30,
        nonce: 0x0102030405060708,
        expiry_ts: 2000,
    };
    let msg = voucher_message(&v);
    let mut expected: Vec<u8> = Vec::new();
    expected.extend_from_slice(&[0x11u8; 32]);
    expected.extend_from_slice(&[0x22u8; 32]);
    expected.extend_from_slice(&[30, 0, 0, 0, 0, 0, 0, 0]);
    expected.extend_from_slice(&[0x08, 0x07, 0x06, 0x05, 0x04, 0x03, 0x02, 0x01]);
    expected.extend_from_slice(&[0xD0, 0x07, 0, 0, 0, 0, 0, 0]);
    assert_eq!(msg.len(), 88);
    assert_eq!(msg, expected);
}

#[test]
fn voucher_message_encodes_a_negative_expiry_twos_complement() {
    let v = VoucherData {
        buyer: id(0),
        sale: id(0),
        max_allocation: 0,
        nonce: 0,
        expiry_ts: -2,
    };
    let msg = voucher_message(&v);
    assert_eq!(&msg[80..88], &[0xFE, 0xFF, 0xFF, 0xFF, 0xFF, 0xFF, 0xFF, 0xFF]);
    let w = VoucherData { expiry_ts: i64::MIN, ..v };
    let msg = voucher_message(&w);
    assert_eq!(&msg[80..88], &[0, 0, 0, 0, 0, 0, 0, 0x80]);
}

fn sale_for_vouchers() -> ([u8; 32], SaleConfig) {
    let accounts = InitializeSale { owner: id(1), token_mint: id(2), treasury: id(3) };
    (id(9), initialize_sale(&accounts, 5, 1000, 3000, 1000).unwrap())
}

fn ctx_at(sale_id: [u8; 32], sale: SaleConfig, buyer: [u8; 32], now: i64) -> BuyWithVoucher {
    BuyWithVoucher {
        sale: sale_id,
        sale_config: sale,
        buyer,
        buyer_escrow: BuyerEscrow { sale: sale_id, buyer, allocation: 0, claimed: 0 },
        now,
    }
}

#[test]
fn voucher_caps_the_requested_allocation() {
    let (sale_id, sale) = sale_for_vouchers();
    let alice = id(10);
    let voucher = VoucherData {
        buyer: alice,
        sale: sale_id,
        max_allocation: 30,
        nonce: 1,
        expiry_ts: 2000,
    };
    let ctx = ctx_at(sale_id, sale, alice, 1500);
    let r = buy_with_voucher(&ctx, 31, &voucher, true);
    assert_eq!(r.unwrap_err(), PresaleError::ExceedsAllocation);
    let o = buy_with_voucher(&ctx, 30, &voucher, true).unwrap();
    assert_eq!(o.buyer_escrow.allocation, 30);
}

#[test]
fn voucher_expires_strictly_after_its_expiry_instant() {
    let (sale_id, sale) = sale_for_vouchers();
    let alice = id(10);
    let voucher = VoucherData {
        buyer: alice,
        sale: sale_id,
        max_allocation: 30,
        nonce: 1,
        expiry_ts: 2000,
    };
    let expired = ctx_at(sale_id, sale, alice, 2001);
    let r = buy_with_voucher(&expired, 30, &voucher, true);
    assert_eq!(r.unwrap_err(), PresaleError::VoucherExpired);
    let at_expiry = ctx_at(sale_id, sale, alice, 2000);
    assert!(buy_with_voucher(&at_expiry, 30, &voucher, true).is_ok());
}

#[test]
fn voucher_bound_to_another_buyer_is_rejected() {
    let (sale_id, sale) = sale_for_vouchers();
    let voucher = VoucherData {
        buyer: id(10),
        sale: sale_id,
        max_allocation: 30,
        nonce: 1,
        expiry_ts: 2000,
    };
    let mallory = id(13);
    let ctx = ctx_at(sale_id, sale, mallory, 1500);
    let r = buy_with_voucher(&ctx, 10, &voucher, true);
    assert_eq!(r.unwrap_err(), PresaleError::InvalidVoucher);
}

#[test]
fn voucher_bound_to_another_sale_is_rejected() {
    let (sale_id, sale) = sale_for_vouchers();
    let alice = id(10);
    let voucher = VoucherData {
        buyer: alice,
        sale: id(42),
        max_allocation: 30,
        nonce: 1,
        expiry_ts: 2000,
    };
    let ctx = ctx_at(sale_id, sale, alice, 1500);
    let r = buy_with_voucher(&ctx, 10, &voucher, true);
    assert_eq!(r.unwrap_err(), PresaleError::InvalidVoucher);
}

#[test]
fn voucher_with_a_failed_signature_is_rejected() {
    // A host that skipped verification would hand `true` here; the
    // transition itself must never treat the verdict as a no-op.
    let (sale_id, sale) = sale_for_vouchers();
    let alice = id(10);
    let voucher = VoucherData {
        buyer: alice,
        sale: sale_id,
        max_allocation: 30,
        nonce: 1,
        expiry_ts: 2000,
    };
    let ctx = ctx_at(sale_id, sale, alice, 1500);
    let r = buy_with_voucher(&ctx, 10, &voucher, false);
    assert_eq!(r.unwrap_err(), PresaleError::InvalidVoucher);
    assert!(buy_with_voucher(&ctx, 10, &voucher, true).is_ok());
}
