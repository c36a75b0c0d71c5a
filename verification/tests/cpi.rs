use anchor_programs::cpi::{single_byte, u64_le_bytes, Instruction, Invocation};
use anchor_programs::pubkey::Pubkey;

#[test]
fn le_bytes_match_std() {
    for x in [0u64, 1, 255, 256, 0x0102_0304_0506_0708, u64::MAX] {
        assert_eq!(u64_le_bytes(x), x.to_le_bytes().to_vec());
    }
}

#[test]
fn single_byte_holds_value() {
    assert_eq!(single_byte(7), vec![7]);
}

#[test]
fn pubkey_bytes_and_default() {
    let mut bytes = [0u8; 32];
    bytes[5] = 9;
    let k = Pubkey::new_from_array(bytes);
    assert_eq!(k.to_bytes(), bytes.to_vec());
    assert!(!k.is_default());
    assert!(Pubkey::default().is_default());
    assert_eq!(Pubkey::default(), Pubkey::new_from_array([0u8; 32]));
    assert_ne!(k, Pubkey::default());
}

#[test]
fn unsigned_invocation_has_no_seeds() {
    let k = Pubkey::new_from_array([1u8; 32]);
    let ins = Instruction::Revoke { source: k, authority: k };
    assert_eq!(Invocation::unsigned(ins), Invocation { instruction: ins, signer_seeds: vec![] });
    let signed = Invocation::signed(ins, vec![vec![1, 2]]);
    assert_eq!(signed.signer_seeds, vec![vec![1u8, 2]]);
}
