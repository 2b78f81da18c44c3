use suiforge::corpus::SourceUnit;
use suiforge::hashing::compute_source_hash;
use suiforge::text::{
    bytes_eq, contains_bytes, count_matches_exec, is_blank_exec, rfind_byte_exec, split_lines,
    trimmed_starts_with_exec,
};

fn unit(path: &str, content: &str) -> SourceUnit {
    SourceUnit::new(path.as_bytes().to_vec(), content.as_bytes().to_vec())
}

#[test]
fn source_hash_is_the_hex_sha256_of_the_bytes() {
    let corpus = vec![unit("a.move", "abc")];
    assert_eq!(
        compute_source_hash(&corpus),
        "ba7816bf8f01cfea414140de5dae2223b00361a396177a9cb410ff61f20015ad"
    );
}

#[test]
fn source_hash_concatenates_files_in_order() {
    let split = vec![unit("a.move", "ab"), unit("b.move", "c")];
    let whole = vec![unit("all.move", "abc")];
    assert_eq!(compute_source_hash(&split), compute_source_hash(&whole));
    let reversed = vec![unit("b.move", "c"), unit("a.move", "ab")];
    assert_ne!(compute_source_hash(&reversed), compute_source_hash(&whole));
}

#[test]
fn empty_corpus_hash_is_the_empty_digest() {
    assert_eq!(
        compute_source_hash(&Vec::new()),
        "e3b0c44298fc1c149afbf4c8996fb92427ae41e4649b934ca495991b7852b855"
    );
}

#[test]
fn line_splitting_matches_str_lines() {
    let cases: [&str; 6] = ["", "a", "a\nb", "a\n", "a\r\nb\r", "\n\na\n"];
    for case in cases {
        let got = split_lines(&case.as_bytes().to_vec());
        let want: Vec<Vec<u8>> = case.lines().map(|l| l.as_bytes().to_vec()).collect();
        assert_eq!(got, want, "case {:?}", case);
    }
}

#[test]
fn byte_utilities() {
    let hay = b"transfer::transfer(x)".to_vec();
    assert!(contains_bytes(&hay, &b"transfer::".to_vec()));
    assert!(!contains_bytes(&hay, &b"assert!".to_vec()));
    assert_eq!(count_matches_exec(&b"aaaa".to_vec(), &b"aa".to_vec()), 2);
    assert_eq!(count_matches_exec(&b"abcabc".to_vec(), &b"abc".to_vec()), 2);
    assert_eq!(count_matches_exec(&b"abc".to_vec(), &b"zz".to_vec()), 0);
    assert!(bytes_eq(&b"same".to_vec(), &b"same".to_vec()));
    assert!(!bytes_eq(&b"same".to_vec(), &b"different".to_vec()));
    assert!(is_blank_exec(&b"  \t ".to_vec()));
    assert!(!is_blank_exec(&b" x ".to_vec()));
    assert!(trimmed_starts_with_exec(
        &b"   /// doc".to_vec(),
        &b"///".to_vec()
    ));
    assert!(!trimmed_starts_with_exec(
        &b"   // not doc".to_vec(),
        &b"///".to_vec()
    ));
    assert_eq!(rfind_byte_exec(&b"a/b/c".to_vec(), b'/'), Some(3));
    assert_eq!(rfind_byte_exec(&b"abc".to_vec(), b'/'), None);
}
