use pigeon::entropy::EntropyState;
use pigeon::generator::encode_stream;
use pigeon::generator::generate_password;
use pigeon::generator::generate_stream;
use pigeon::generator::GeneratePasswordParams;
use pigeon::generator::PigeonInstance;

fn params_with(size: u32) -> GeneratePasswordParams {
    GeneratePasswordParams {
        size,
        use_uppercase_chars: false,
        use_lowercase_chars: false,
        use_numbers: false,
        use_logograms: false,
        use_punctuation: false,
        use_quotation_marks: false,
        use_dashes_and_slashes: false,
        use_maths_symbols: false,
        use_brackets: false,
    }
}

fn all_classes(size: u32) -> GeneratePasswordParams {
    GeneratePasswordParams {
        size,
        use_uppercase_chars: true,
        use_lowercase_chars: true,
        use_numbers: true,
        use_logograms: true,
        use_punctuation: true,
        use_quotation_marks: true,
        use_dashes_and_slashes: true,
        use_maths_symbols: true,
        use_brackets: true,
    }
}

#[test]
fn stream_length_is_exactly_the_requested_size() {
    let mut instance = PigeonInstance::default();
    let state = EntropyState::new();
    for &size in &[0u32, 1, 31, 32, 33, 64, 65, 100, 256, 1000] {
        let stream = generate_stream(&mut instance, Some(&state), size);
        assert_eq!(stream.len(), size as usize);
        instance.generated_streams_count = instance.generated_streams_count.wrapping_add(1);
    }
}

#[test]
fn stream_length_without_shared_entropy() {
    let mut instance = PigeonInstance::default();
    for &size in &[0u32, 5, 32, 77] {
        let stream = generate_stream(&mut instance, None, size);
        assert_eq!(stream.len(), size as usize);
    }
}

#[test]
fn streams_differ_across_calls() {
    let mut instance = PigeonInstance::default();
    let state = EntropyState::new();
    let a = generate_stream(&mut instance, Some(&state), 32);
    let b = generate_stream(&mut instance, Some(&state), 32);
    assert_ne!(a, b);
}

#[test]
fn ratchet_is_chained_forward_by_every_generation() {
    let mut instance = PigeonInstance::default();
    let state = EntropyState::new();
    assert!(instance.last_used_entropy.is_empty());
    generate_stream(&mut instance, Some(&state), 16);
    let first = instance.last_used_entropy.clone();
    assert_eq!(first.len(), 64);
    generate_stream(&mut instance, Some(&state), 16);
    let second = instance.last_used_entropy.clone();
    assert_eq!(second.len(), 64);
    assert_ne!(second, first);
}

#[test]
fn password_of_size_zero_is_empty_for_every_flag_combination() {
    let mut instance = PigeonInstance::default();
    let state = EntropyState::new();
    for mask in 0u32..512 {
        let mut params = params_with(0);
        params.use_uppercase_chars = mask & 1 != 0;
        params.use_lowercase_chars = mask & 2 != 0;
        params.use_numbers = mask & 4 != 0;
        params.use_logograms = mask & 8 != 0;
        params.use_punctuation = mask & 16 != 0;
        params.use_quotation_marks = mask & 32 != 0;
        params.use_dashes_and_slashes = mask & 64 != 0;
        params.use_maths_symbols = mask & 128 != 0;
        params.use_brackets = mask & 256 != 0;
        assert_eq!(generate_password(&mut instance, Some(&state), &params), "");
    }
}

#[test]
fn password_without_any_class_is_empty() {
    let mut instance = PigeonInstance::default();
    let state = EntropyState::new();
    let params = params_with(7);
    assert_eq!(generate_password(&mut instance, Some(&state), &params), "");
    // no generation ran, so the ratchet is still empty
    assert!(instance.last_used_entropy.is_empty());
}

#[test]
fn password_with_only_digits() {
    let mut instance = PigeonInstance::default();
    let state = EntropyState::new();
    let mut params = params_with(5);
    params.use_numbers = true;
    let password = generate_password(&mut instance, Some(&state), &params);
    assert_eq!(password.chars().count(), 5);
    assert!(password.chars().all(|c| "0123456789".contains(c)));
}

#[test]
fn password_characters_come_from_the_selected_alphabet() {
    let mut instance = PigeonInstance::default();
    let state = EntropyState::new();
    let alphabet = "ABCDEFGHIJKLMNOPQRSTUVWXYZabcdefghijklmnopqrstuvwxyz0123456789#$%&@^`~.,:;\"'\\/|_-<>*+!?=()[]{}";
    let password = generate_password(&mut instance, Some(&state), &all_classes(64));
    assert_eq!(password.chars().count(), 64);
    assert!(password.chars().all(|c| alphabet.contains(c)));
}

#[test]
fn password_length_matches_request() {
    let mut instance = PigeonInstance::default();
    let state = EntropyState::new();
    let mut params = params_with(20);
    params.use_uppercase_chars = true;
    params.use_lowercase_chars = true;
    params.use_numbers = true;
    let password = generate_password(&mut instance, Some(&state), &params);
    assert_eq!(password.chars().count(), 20);
}

#[test]
fn successive_passwords_differ() {
    let mut instance = PigeonInstance::default();
    let state = EntropyState::new();
    let mut params = params_with(24);
    params.use_uppercase_chars = true;
    params.use_lowercase_chars = true;
    params.use_numbers = true;
    let mut seen: Vec<String> = Vec::new();
    for _ in 0..8 {
        let password = generate_password(&mut instance, Some(&state), &params);
        assert!(!seen.contains(&password));
        seen.push(password);
        instance.generated_streams_count = instance.generated_streams_count.wrapping_add(1);
    }
}

#[test]
fn encode_stream_maps_each_byte_by_modulus() {
    let alphabet: Vec<char> = "0123456789".chars().collect();
    let stream = vec![0u8, 1, 9, 10, 37, 255];
    let encoded = encode_stream(&stream, &alphabet);
    assert_eq!(encoded, "019075");
    let empty_stream: Vec<u8> = Vec::new();
    assert_eq!(encode_stream(&empty_stream, &alphabet), "");
}

#[test]
fn generation_leaves_counters_to_the_caller() {
    let mut instance = PigeonInstance::default();
    let state = EntropyState::new();
    let start_time = instance.program_start_time;
    generate_stream(&mut instance, Some(&state), 8);
    assert_eq!(instance.program_start_time, start_time);
    assert_eq!(instance.generated_streams_count, 0);
}
