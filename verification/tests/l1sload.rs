use taiko_revm::l1sload::{
    clear_l1_storage_cache, get_l1_storage_value, l1sload_run, set_l1_storage_value,
    L1SloadError, L1StorageCache, EXPECTED_INPUT_LENGTH, L1SLOAD_FIXED_GAS, L1SLOAD_PER_LOAD_GAS,
};

const TEST_ADDRESS: [u8; 20] = [1u8; 20];
const TEST_STORAGE_KEY: [u8; 32] = [2u8; 32];
const TEST_BLOCK_NUMBER: [u8; 32] = [3u8; 32];
const TEST_STORAGE_VALUE: [u8; 32] = [5u8; 32];
const SUFFICIENT_GAS: u64 = L1SLOAD_FIXED_GAS + L1SLOAD_PER_LOAD_GAS;
const INSUFFICIENT_GAS: u64 = SUFFICIENT_GAS - 1;

/// Input made of the test address, storage key and block number.
fn create_test_input() -> Vec<u8> {
    let mut input = vec![0u8; EXPECTED_INPUT_LENGTH];
    input[0..20].copy_from_slice(&TEST_ADDRESS);
    input[20..52].copy_from_slice(&TEST_STORAGE_KEY);
    input[52..84].copy_from_slice(&TEST_BLOCK_NUMBER);
    input
}

/// Caches the test value for the test slot.
fn setup_test_storage(cache: &mut L1StorageCache) -> ([u8; 20], [u8; 32], [u8; 32], [u8; 32]) {
    set_l1_storage_value(
        cache,
        TEST_ADDRESS,
        TEST_STORAGE_KEY,
        TEST_BLOCK_NUMBER,
        TEST_STORAGE_VALUE,
    );
    (TEST_ADDRESS, TEST_STORAGE_KEY, TEST_BLOCK_NUMBER, TEST_STORAGE_VALUE)
}

#[test]
fn test_l1sload_rejects_invalid_input_lengths() {
    let mut cache = L1StorageCache::new();
    clear_l1_storage_cache(&mut cache);

    // Test input too short
    let short_input = vec![0u8; 80];
    let result = l1sload_run(&cache, &short_input, SUFFICIENT_GAS);
    assert!(result.is_err(), "Should reject too short input");

    // Test input too long
    let long_input = vec![0u8; 100];
    let result = l1sload_run(&cache, &long_input, SUFFICIENT_GAS);
    assert!(result.is_err(), "Should reject too long input");
}

#[test]
fn test_l1sload_fails_without_cached_storage() {
    let mut cache = L1StorageCache::new();
    clear_l1_storage_cache(&mut cache);

    let input = create_test_input();
    let result = l1sload_run(&cache, &input, SUFFICIENT_GAS);

    assert!(result.is_err(), "Should fail when storage value is not cached");
}

#[test]
fn test_l1sload_succeeds_with_cached_storage() {
    let mut cache = L1StorageCache::new();
    clear_l1_storage_cache(&mut cache);

    let (_, _, _, expected_value) = setup_test_storage(&mut cache);
    let input = create_test_input();

    let result = l1sload_run(&cache, &input, SUFFICIENT_GAS);
    assert!(result.is_ok(), "Should succeed when storage value is cached");

    let output = result.unwrap();

    let expected_gas = L1SLOAD_FIXED_GAS + L1SLOAD_PER_LOAD_GAS;
    assert_eq!(
        output.gas_used, expected_gas,
        "Gas usage should be fixed cost + per-load cost"
    );

    assert_eq!(output.bytes.len(), 32, "Output should be exactly 32 bytes");

    assert_eq!(
        output.bytes.as_slice(),
        &expected_value,
        "Output should match the cached storage value"
    );
}

#[test]
fn test_l1sload_fails_with_insufficient_gas() {
    let mut cache = L1StorageCache::new();
    clear_l1_storage_cache(&mut cache);

    let input = vec![0u8; EXPECTED_INPUT_LENGTH];
    let result = l1sload_run(&cache, &input, INSUFFICIENT_GAS);

    assert!(result.is_err(), "Should fail when gas limit is insufficient");
}

#[test]
fn test_storage_cache_operations() {
    let mut cache = L1StorageCache::new();
    clear_l1_storage_cache(&mut cache);

    let address = TEST_ADDRESS;
    let key = TEST_STORAGE_KEY;
    let block = TEST_BLOCK_NUMBER;
    let value = TEST_STORAGE_VALUE;

    assert!(
        get_l1_storage_value(&cache, address, key, block).is_none(),
        "Cache should be empty initially"
    );

    set_l1_storage_value(&mut cache, address, key, block, value);
    assert_eq!(
        get_l1_storage_value(&cache, address, key, block),
        Some(value),
        "Should retrieve the cached value"
    );
}

#[test]
fn test_cache_key_uniqueness() {
    let mut cache = L1StorageCache::new();
    clear_l1_storage_cache(&mut cache);

    let address1 = [1u8; 20];
    let address2 = [2u8; 20];
    let key1 = [1u8; 32];
    let key2 = [2u8; 32];
    let block1 = [1u8; 32];
    let block2 = [2u8; 32];
    let value1 = [10u8; 32];
    let value2 = [20u8; 32];

    set_l1_storage_value(&mut cache, address1, key1, block1, value1);
    set_l1_storage_value(&mut cache, address2, key2, block2, value2);

    assert_eq!(get_l1_storage_value(&cache, address1, key1, block1), Some(value1));
    assert_eq!(get_l1_storage_value(&cache, address2, key2, block2), Some(value2));

    assert!(get_l1_storage_value(&cache, address1, key2, block1).is_none());
    assert!(get_l1_storage_value(&cache, address2, key1, block2).is_none());
}

#[test]
fn l1sload_error_kinds() {
    let mut cache = L1StorageCache::new();
    setup_test_storage(&mut cache);
    let input = create_test_input();

    // The gas limit is checked before the input length.
    assert_eq!(
        l1sload_run(&cache, &[0u8; 3], INSUFFICIENT_GAS),
        Err(L1SloadError::OutOfGas)
    );
    assert_eq!(l1sload_run(&cache, &input, 0), Err(L1SloadError::OutOfGas));
    assert_eq!(
        l1sload_run(&cache, &input[..83], SUFFICIENT_GAS),
        Err(L1SloadError::InvalidInputLength)
    );
    assert_eq!(l1sload_run(&cache, &[], u64::MAX), Err(L1SloadError::InvalidInputLength));

    let mut other = input.clone();
    other[83] = 4;
    assert_eq!(
        l1sload_run(&cache, &other, SUFFICIENT_GAS),
        Err(L1SloadError::StorageValueNotFound)
    );

    assert_eq!(L1SloadError::InvalidInputLength.message(), "Invalid input length");
    assert_eq!(
        L1SloadError::StorageValueNotFound.message(),
        "L1 storage value not found in cache"
    );
}

#[test]
fn l1sload_reads_back_after_overwrite_and_clear() {
    let mut cache = L1StorageCache::new();
    let input = create_test_input();
    setup_test_storage(&mut cache);

    // A second write to the same slot replaces the first.
    let newer = [9u8; 32];
    set_l1_storage_value(&mut cache, TEST_ADDRESS, TEST_STORAGE_KEY, TEST_BLOCK_NUMBER, newer);
    let out = l1sload_run(&cache, &input, u64::MAX).unwrap();
    assert_eq!(out.bytes, newer.to_vec());
    assert_eq!(out.gas_used, 4000);

    // Writing another slot leaves this one as it was.
    set_l1_storage_value(&mut cache, [7u8; 20], TEST_STORAGE_KEY, TEST_BLOCK_NUMBER, [8u8; 32]);
    assert_eq!(l1sload_run(&cache, &input, SUFFICIENT_GAS).unwrap().bytes, newer.to_vec());

    clear_l1_storage_cache(&mut cache);
    assert_eq!(
        l1sload_run(&cache, &input, SUFFICIENT_GAS),
        Err(L1SloadError::StorageValueNotFound)
    );
    assert_eq!(get_l1_storage_value(&cache, [7u8; 20], TEST_STORAGE_KEY, TEST_BLOCK_NUMBER), None);
}

#[test]
fn l1sload_parses_each_field_of_the_input() {
    let mut cache = L1StorageCache::new();
    let mut address = [0u8; 20];
    let mut key = [0u8; 32];
    let mut block = [0u8; 32];
    for i in 0..20 {
        address[i] = i as u8;
    }
    for i in 0..32 {
        key[i] = 100 + i as u8;
        block[i] = 200 + i as u8;
    }
    let mut value = [0u8; 32];
    value[0] = 0xab;
    value[31] = 0xcd;
    set_l1_storage_value(&mut cache, address, key, block, value);

    let mut input = Vec::new();
    input.extend_from_slice(&address);
    input.extend_from_slice(&key);
    input.extend_from_slice(&block);
    let out = l1sload_run(&cache, &input, SUFFICIENT_GAS).unwrap();
    assert_eq!(out.bytes, value.to_vec());

    // Swapping storage key and block number asks for another slot.
    let mut swapped = Vec::new();
    swapped.extend_from_slice(&address);
    swapped.extend_from_slice(&block);
    swapped.extend_from_slice(&key);
    assert!(l1sload_run(&cache, &swapped, SUFFICIENT_GAS).is_err());
}
