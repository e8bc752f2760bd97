use gkr_service::command::{
    classify_invocation, parse_command, parse_count, replicate_public_input, same_text, Command,
    Invocation,
};

fn args(words: &[&str]) -> Vec<String> {
    words.iter().map(|w| w.to_string()).collect()
}

#[test]
fn command_words_are_read() {
    assert_eq!(parse_command("prove"), Some(Command::Prove));
    assert_eq!(parse_command("verify"), Some(Command::Verify));
    assert_eq!(parse_command("serve"), Some(Command::Serve));
}

#[test]
fn other_words_name_no_command() {
    assert_eq!(parse_command(""), None);
    assert_eq!(parse_command("Prove"), None);
    assert_eq!(parse_command("prover"), None);
    assert_eq!(parse_command("prov"), None);
    assert_eq!(parse_command(" serve"), None);
}

#[test]
fn same_text_compares_every_character() {
    assert!(same_text("", ""));
    assert!(same_text("verify", "verify"));
    assert!(!same_text("verify", "verifY"));
    assert!(!same_text("verify", "verif"));
    assert!(!same_text("é", "e"));
    assert!(same_text("é", "é"));
}

#[test]
fn too_few_arguments_ask_for_usage() {
    assert_eq!(classify_invocation(&args(&[])), Invocation::Usage);
    assert_eq!(classify_invocation(&args(&["bin"])), Invocation::Usage);
    assert_eq!(classify_invocation(&args(&["bin", "prove", "c", "w"])), Invocation::Usage);
    assert_eq!(classify_invocation(&args(&["bin", "bogus", "c", "w"])), Invocation::Usage);
}

#[test]
fn unknown_command_is_invalid() {
    assert_eq!(
        classify_invocation(&args(&["bin", "bogus", "c", "w", "o"])),
        Invocation::InvalidCommand
    );
}

#[test]
fn prove_and_serve_are_recognised() {
    assert_eq!(classify_invocation(&args(&["bin", "prove", "c", "w", "o"])), Invocation::Prove);
    assert_eq!(
        classify_invocation(&args(&["bin", "serve", "c", "127.0.0.1", "3030"])),
        Invocation::Serve
    );
}

#[test]
fn verify_notes_a_replication_count() {
    assert_eq!(
        classify_invocation(&args(&["bin", "verify", "c", "w", "p"])),
        Invocation::Verify { replicated: false }
    );
    assert_eq!(
        classify_invocation(&args(&["bin", "verify", "c", "w", "p", "4"])),
        Invocation::Verify { replicated: true }
    );
}

#[test]
fn public_input_is_repeated_for_each_participant() {
    let mut input = vec![1u32, 2, 3];
    replicate_public_input(&mut input, 3);
    assert_eq!(input, vec![1, 2, 3, 1, 2, 3, 1, 2, 3]);
}

#[test]
fn two_participants_double_the_public_input() {
    let mut input = vec![7u8, 8];
    replicate_public_input(&mut input, 2);
    assert_eq!(input, vec![7, 8, 7, 8]);
}

#[test]
fn one_participant_leaves_the_public_input() {
    let mut input = vec![1u64, 2, 3];
    replicate_public_input(&mut input, 1);
    assert_eq!(input, vec![1, 2, 3]);
}

#[test]
fn count_of_zero_or_less_leaves_the_public_input() {
    let mut input = vec![1u64, 2, 3];
    replicate_public_input(&mut input, 0);
    assert_eq!(input, vec![1, 2, 3]);
    replicate_public_input(&mut input, -5);
    assert_eq!(input, vec![1, 2, 3]);
    replicate_public_input(&mut input, i32::MIN);
    assert_eq!(input, vec![1, 2, 3]);
}

#[test]
fn empty_public_input_stays_empty() {
    let mut input: Vec<u16> = Vec::new();
    replicate_public_input(&mut input, 1000);
    assert!(input.is_empty());
}

#[test]
fn replication_count_is_read() {
    assert_eq!(parse_count(b"4"), Some(4));
    assert_eq!(parse_count(b"1"), Some(1));
    assert_eq!(parse_count(b"0"), Some(0));
    assert_eq!(parse_count(b"+16"), Some(16));
    assert_eq!(parse_count(b"007"), Some(7));
    assert_eq!(parse_count(b"2147483647"), Some(i32::MAX));
}

#[test]
fn replication_count_may_be_negative() {
    assert_eq!(parse_count(b"-3"), Some(-3));
    assert_eq!(parse_count(b"-0"), Some(0));
    assert_eq!(parse_count(b"-2147483648"), Some(i32::MIN));
}

#[test]
fn replication_count_out_of_range_is_refused() {
    assert_eq!(parse_count(b"2147483648"), None);
    assert_eq!(parse_count(b"-2147483649"), None);
    assert_eq!(parse_count(b"99999999999999999999"), None);
}

#[test]
fn replication_count_that_is_no_number_is_refused() {
    assert_eq!(parse_count(b""), None);
    assert_eq!(parse_count(b"-"), None);
    assert_eq!(parse_count(b"+"), None);
    assert_eq!(parse_count(b"-+5"), None);
    assert_eq!(parse_count(b"+-5"), None);
    assert_eq!(parse_count(b"--5"), None);
    assert_eq!(parse_count(b"4 "), None);
    assert_eq!(parse_count(b"four"), None);
}

#[test]
fn replication_count_agrees_with_the_standard_reading() {
    for text in ["4", "+4", "-4", "0004", "", "-", "+", "2147483647", "2147483648", "-2147483648", "1e3", "٣"] {
        assert_eq!(parse_count(text.as_bytes()), text.parse::<i32>().ok());
    }
}
