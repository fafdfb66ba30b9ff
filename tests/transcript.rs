use whisper_api::transcript::assemble_transcript;

fn segments(parts: &[&str]) -> Vec<String> {
    parts.iter().map(|s| s.to_string()).collect()
}

#[test]
fn segments_are_joined_by_one_space() {
    assert_eq!(assemble_transcript(&segments(&["Hello", "world."])), "Hello world.");
}

#[test]
fn outer_white_space_is_trimmed_inner_kept() {
    assert_eq!(assemble_transcript(&segments(&[" Hi ", "there\n"])), "Hi  there");
}

#[test]
fn no_segments_give_empty_string() {
    assert_eq!(assemble_transcript(&Vec::new()), "");
}

#[test]
fn blank_segments_give_empty_string() {
    assert_eq!(assemble_transcript(&segments(&[" ", "\t", ""])), "");
}

#[test]
fn same_segments_give_same_transcript() {
    let s = segments(&[" one", "two "]);
    assert_eq!(assemble_transcript(&s), assemble_transcript(&s));
    assert_eq!(assemble_transcript(&s), "one two");
}
