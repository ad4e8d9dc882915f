use crypta::age_keys::{
    extract_public_key_from_key_file, extract_public_key_from_output, PublicKeyMissing,
};

#[test]
fn key_is_taken_from_the_announcement() {
    let output = "Public key: age1qyqszqgpqyqszqgpqyqszqgpqyqszqgpqyqszqgpqyqszqgpqyqs3290gq\n";
    assert_eq!(
        extract_public_key_from_output(output),
        Ok("age1qyqszqgpqyqszqgpqyqszqgpqyqszqgpqyqszqgpqyqszqgpqyqs3290gq".to_string())
    );
}

#[test]
fn key_is_taken_from_the_comment_of_a_key_file() {
    let output = "# created: 2024-01-01T00:00:00Z\r\n# public key: age1abc \r\nAGE-SECRET-KEY-1XYZ\r\n";
    assert_eq!(extract_public_key_from_output(output), Ok("age1abc".to_string()));
    assert_eq!(extract_public_key_from_key_file(output), Ok("age1abc".to_string()));
}

#[test]
fn first_announcing_line_wins() {
    let output = "nothing here\n  Public key:  first  Public key: second\n# public key: third\n";
    assert_eq!(extract_public_key_from_output(output), Ok("first".to_string()));
    assert_eq!(extract_public_key_from_key_file(output), Ok("third".to_string()));
}

#[test]
fn comment_is_taken_out_wherever_it_stands() {
    let line = "# public key: age1# public key: tail";
    assert_eq!(extract_public_key_from_output(line), Ok("age1tail".to_string()));
}

#[test]
fn comment_must_begin_the_line() {
    let output = " # public key: age1abc\nkey";
    assert_eq!(extract_public_key_from_output(output), Err(PublicKeyMissing));
    assert_eq!(extract_public_key_from_key_file(output), Err(PublicKeyMissing));
    assert_eq!(extract_public_key_from_output(""), Err(PublicKeyMissing));
}

#[test]
fn announcement_without_a_key_gives_an_empty_key() {
    assert_eq!(extract_public_key_from_output("Public key:"), Ok(String::new()));
    assert_eq!(extract_public_key_from_output("Public key: \u{2003}\t"), Ok(String::new()));
}

/// What the standard library makes of the same rule.
fn by_the_standard_library(output: &str, with_announcement: bool) -> Option<String> {
    for line in output.lines() {
        if with_announcement && line.contains("Public key:") {
            return Some(line.split("Public key:").nth(1).unwrap_or("").trim().to_string());
        }
        if line.starts_with("# public key: ") {
            return Some(line.replace("# public key: ", "").trim().to_string());
        }
    }
    None
}

#[test]
fn extraction_agrees_with_the_standard_library() {
    let pieces = [
        "Public key:",
        "# public key: ",
        "# public key:",
        " ",
        "\n",
        "\r",
        "\r\n",
        "age1",
        "\u{a0}",
        "#",
    ];
    let mut inputs: Vec<String> = vec![String::new()];
    let mut last: Vec<String> = vec![String::new()];
    for _ in 0..4 {
        let mut next = Vec::new();
        for text in &last {
            for piece in pieces {
                next.push(format!("{}{}", text, piece));
            }
        }
        inputs.extend(next.iter().cloned());
        last = next;
    }
    assert_eq!(inputs.len(), 11111);
    for input in &inputs {
        assert_eq!(
            extract_public_key_from_output(input).ok(),
            by_the_standard_library(input, true),
            "output {:?}",
            input
        );
        assert_eq!(
            extract_public_key_from_key_file(input).ok(),
            by_the_standard_library(input, false),
            "key file {:?}",
            input
        );
    }
}
