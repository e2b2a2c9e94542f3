use escrow::address::Address;
use escrow::record::EscrowRecord;

fn sample_record() -> EscrowRecord {
    EscrowRecord {
        seed: 7,
        maker: Address::new([2u8; 32]),
        asset_offered: Address::new([3u8; 32]),
        asset_requested: Address::new([4u8; 32]),
        amount_requested: 500,
        derivation_bump: 254,
    }
}

#[test]
fn encoding_has_the_fixed_layout() {
    let rec = sample_record();
    let bytes = rec.encode();
    assert_eq!(bytes.len(), 121);
    // Record tag.
    assert_eq!(&bytes[0..8], &[31u8, 213, 123, 187, 186, 22, 218, 155]);
    // Seed, little endian.
    assert_eq!(&bytes[8..16], &7u64.to_le_bytes());
    // The three identities.
    assert_eq!(&bytes[16..48], &[2u8; 32]);
    assert_eq!(&bytes[48..80], &[3u8; 32]);
    assert_eq!(&bytes[80..112], &[4u8; 32]);
    // Requested amount, little endian.
    assert_eq!(&bytes[112..120], &500u64.to_le_bytes());
    // Tie-break value.
    assert_eq!(bytes[120], 254);
}

#[test]
fn decoding_inverts_encoding() {
    let rec = sample_record();
    let bytes = rec.encode();
    let back = EscrowRecord::decode(&bytes);
    assert_eq!(back, Some(rec));
}

#[test]
fn decoding_rejects_a_wrong_length() {
    let rec = sample_record();
    let mut bytes = rec.encode();
    bytes.push(0);
    assert_eq!(EscrowRecord::decode(&bytes), None);
    assert_eq!(EscrowRecord::decode(&bytes[0..120]), None);
    assert_eq!(EscrowRecord::decode(&[]), None);
}

#[test]
fn decoding_rejects_a_wrong_tag() {
    let rec = sample_record();
    let mut bytes = rec.encode();
    bytes[0] = bytes[0].wrapping_add(1);
    assert_eq!(EscrowRecord::decode(&bytes), None);
}

#[test]
fn decoding_reads_every_field() {
    let rec = sample_record();
    let mut bytes = rec.encode();
    // Flip one byte of the requested amount and decode again: the record
    // must come back with exactly that change.
    bytes[112] = 1;
    let back = EscrowRecord::decode(&bytes).unwrap();
    assert_eq!(back.amount_requested, 500 - 500 % 256 + 1);
    assert_eq!(back.seed, rec.seed);
    assert_eq!(back.maker, rec.maker);
    assert_eq!(back.asset_offered, rec.asset_offered);
    assert_eq!(back.asset_requested, rec.asset_requested);
    assert_eq!(back.derivation_bump, rec.derivation_bump);
}
