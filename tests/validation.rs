use my_sudt::{check_owner_mode, decode_amount, sum_amounts, validate, CellGroup, Error, UDT_LEN};

const OWNER_LOCK: [u8; 32] = [7u8; 32];

fn amount_data(tokens: &[u128]) -> Vec<Vec<u8>> {
    tokens.iter().map(|t| t.to_le_bytes().to_vec()).collect()
}

/// One input cell per input amount, each guarded by `OWNER_LOCK`; the
/// configured argument is that lock's fingerprint in owner mode and the zero
/// fingerprint otherwise.
fn build_test_context(
    inputs_token: Vec<u128>,
    outputs_token: Vec<u128>,
    is_owner_mode: bool,
) -> (Vec<u8>, CellGroup) {
    let args = if is_owner_mode { OWNER_LOCK.to_vec() } else { [0u8; 32].to_vec() };
    let cells = CellGroup {
        input_locks: inputs_token.iter().map(|_| OWNER_LOCK).collect(),
        group_inputs: amount_data(&inputs_token),
        group_outputs: amount_data(&outputs_token),
    };
    (args, cells)
}

#[test]
fn test_basic() {
    let (args, cells) = build_test_context(vec![1000], vec![400, 600], false);
    assert_eq!(validate(&args, &cells), Ok(()));
}

#[test]
fn test_destroy_udt() {
    let (args, cells) = build_test_context(vec![1000], vec![800, 100, 50], false);
    assert_eq!(validate(&args, &cells), Ok(()));
}

#[test]
fn test_create_sudt_without_owner_mode() {
    let (args, cells) = build_test_context(vec![1000], vec![1200], false);
    let err = validate(&args, &cells).unwrap_err();
    assert_eq!(err, Error::Amount);
    assert_eq!(err.code(), 5);
}

#[test]
fn test_create_sudt_with_owner_mode() {
    let (args, cells) = build_test_context(vec![1000], vec![1200], true);
    assert_eq!(validate(&args, &cells), Ok(()));
}

#[test]
fn pure_issuance_in_owner_mode() {
    let cells = CellGroup {
        input_locks: vec![[1u8; 32], OWNER_LOCK],
        group_inputs: vec![],
        group_outputs: amount_data(&[5000]),
    };
    assert_eq!(validate(&OWNER_LOCK, &cells), Ok(()));
}

#[test]
fn owner_mode_skips_malformed_cells() {
    let cells = CellGroup {
        input_locks: vec![OWNER_LOCK],
        group_inputs: vec![vec![1u8; 3]],
        group_outputs: vec![vec![1u8; 40]],
    };
    assert_eq!(validate(&OWNER_LOCK, &cells), Ok(()));
}

#[test]
fn conservation_refusal_without_matching_lock() {
    let cells = CellGroup {
        input_locks: vec![[1u8; 32], [2u8; 32]],
        group_inputs: amount_data(&[10, 20]),
        group_outputs: amount_data(&[31]),
    };
    assert_eq!(validate(&OWNER_LOCK, &cells), Err(Error::Amount));
    let covered = CellGroup {
        input_locks: vec![[1u8; 32], [2u8; 32]],
        group_inputs: amount_data(&[10, 20]),
        group_outputs: amount_data(&[30]),
    };
    assert_eq!(validate(&OWNER_LOCK, &covered), Ok(()));
}

#[test]
fn short_and_long_payloads_are_encoding_failures() {
    for len in [15usize, 17] {
        let mut outputs = amount_data(&[1]);
        outputs.push(vec![0u8; len]);
        let cells = CellGroup {
            input_locks: vec![[1u8; 32]],
            group_inputs: amount_data(&[1000]),
            group_outputs: outputs,
        };
        assert_eq!(validate(&OWNER_LOCK, &cells), Err(Error::Encoding));

        let mut inputs = amount_data(&[u128::MAX, u128::MAX]);
        inputs.push(vec![0xffu8; len]);
        let cells = CellGroup {
            input_locks: vec![[1u8; 32]],
            group_inputs: inputs,
            group_outputs: amount_data(&[0]),
        };
        assert_eq!(validate(&OWNER_LOCK, &cells), Err(Error::Encoding));
    }
}

#[test]
fn malformed_cell_beats_overflow_in_same_group() {
    let mut cells = amount_data(&[u128::MAX, 1]);
    cells.push(vec![]);
    assert_eq!(sum_amounts(&cells), Err(Error::Encoding));
}

#[test]
fn input_failure_is_reported_before_outputs() {
    let cells = CellGroup {
        input_locks: vec![],
        group_inputs: amount_data(&[u128::MAX, 1]),
        group_outputs: vec![vec![0u8; 2]],
    };
    assert_eq!(validate(&[], &cells), Err(Error::Overflow));
}

#[test]
fn empty_groups_sum_to_zero() {
    assert_eq!(sum_amounts(&[]), Ok(0));
    let cells = CellGroup { input_locks: vec![], group_inputs: vec![], group_outputs: vec![] };
    assert_eq!(validate(&[0u8; 32], &cells), Ok(()));
    let cells = CellGroup {
        input_locks: vec![],
        group_inputs: vec![],
        group_outputs: amount_data(&[1]),
    };
    assert_eq!(validate(&[0u8; 32], &cells), Err(Error::Amount));
    let cells = CellGroup {
        input_locks: vec![],
        group_inputs: amount_data(&[1]),
        group_outputs: vec![],
    };
    assert_eq!(validate(&[0u8; 32], &cells), Ok(()));
}

#[test]
fn sums_are_exact_and_overflow_is_reported() {
    assert_eq!(sum_amounts(&amount_data(&[800, 100, 50])), Ok(950));
    assert_eq!(sum_amounts(&amount_data(&[u128::MAX - 1, 1])), Ok(u128::MAX));
    assert_eq!(sum_amounts(&amount_data(&[u128::MAX, 1])), Err(Error::Overflow));
}

#[test]
fn decode_reads_little_endian() {
    let mut data = [0u8; UDT_LEN];
    data[0] = 0xe8;
    data[1] = 0x03;
    assert_eq!(decode_amount(&data), Some(1000));
    let mut high = [0u8; UDT_LEN];
    high[15] = 1;
    assert_eq!(decode_amount(&high), Some(1u128 << 120));
    assert_eq!(decode_amount(&[0xffu8; UDT_LEN]), Some(u128::MAX));
    assert_eq!(decode_amount(&[1u8; 15]), None);
    assert_eq!(decode_amount(&[1u8; 17]), None);
    assert_eq!(decode_amount(&[]), None);
}

#[test]
fn owner_mode_needs_exact_fingerprint() {
    let locks = vec![[1u8; 32], OWNER_LOCK];
    assert!(check_owner_mode(&OWNER_LOCK, &locks));
    assert!(!check_owner_mode(&[0u8; 32], &locks));
    assert!(!check_owner_mode(&[], &locks));
    assert!(!check_owner_mode(&OWNER_LOCK[..31], &locks));
    let mut longer = OWNER_LOCK.to_vec();
    longer.push(7);
    assert!(!check_owner_mode(&longer, &locks));
    let mut near = OWNER_LOCK;
    near[31] = 8;
    assert!(!check_owner_mode(&near, &locks));
    assert!(!check_owner_mode(&OWNER_LOCK, &[]));
}

#[test]
fn revalidation_gives_the_same_outcome() {
    let (args, cells) = build_test_context(vec![1000], vec![1200], false);
    let first = validate(&args, &cells);
    let second = validate(&args, &cells);
    assert_eq!(first, second);
    assert_eq!(first, Err(Error::Amount));
    let (args, cells) = build_test_context(vec![1000], vec![400, 600], false);
    assert_eq!(validate(&args, &cells), validate(&args, &cells));
}

#[test]
fn error_codes_follow_declaration_order() {
    assert_eq!(Error::IndexOutOfBound.code(), 1);
    assert_eq!(Error::ItemMissing.code(), 2);
    assert_eq!(Error::LengthNotEnough.code(), 3);
    assert_eq!(Error::Encoding.code(), 4);
    assert_eq!(Error::Amount.code(), 5);
    assert_eq!(Error::Overflow.code(), 6);
}
