use loki::fingerprint::fingerprint;
use loki::fingerprint::hex_string;
use loki::object::objects_for;
use loki::object::resolve_object;

#[test]
fn test_fingerprint_deterministic() {
    let content = b"int main() { return 0; }\n";
    assert_eq!(fingerprint(content), fingerprint(content));
    assert_eq!(fingerprint(&content.to_vec()), fingerprint(&content.clone().to_vec()));
    assert_eq!(fingerprint(b""), fingerprint(b""));
}

#[test]
fn test_fingerprint_distinct_on_corpus() {
    let corpus: Vec<&[u8]> = vec![
        b"",
        b"a",
        b"b",
        b"int main() { return 0; }\n",
        b"int main() { return 1; }\n",
        b"#include <stdio.h>\n",
        b"static int x;\n",
        b"static int y;\n",
    ];
    let hashes: Vec<u64> = corpus.iter().map(|c| fingerprint(c)).collect();
    for i in 0..hashes.len() {
        for j in 0..hashes.len() {
            if i != j {
                assert_ne!(hashes[i], hashes[j], "corpus entries {} and {} collide", i, j);
            }
        }
    }
}

#[test]
fn test_fingerprint_matches_reference_hash() {
    let content = b"some translation unit\n";
    assert_eq!(fingerprint(content), xxhash_rust::xxh3::xxh3_64(content));
    assert_eq!(fingerprint(b""), xxhash_rust::xxh3::xxh3_64(b""));
}

#[test]
fn test_hex_string_exact() {
    assert_eq!(hex_string(0), "0");
    assert_eq!(hex_string(9), "9");
    assert_eq!(hex_string(10), "a");
    assert_eq!(hex_string(255), "ff");
    assert_eq!(hex_string(0xdeadbeef), "deadbeef");
    assert_eq!(hex_string(u64::MAX), "ffffffffffffffff");
}

#[test]
fn test_resolve_object_matches_formatted_fingerprint() {
    let content = b"int f(void);\n";
    let expected = format!("target/obj/{:x}.o", xxhash_rust::xxh3::xxh3_64(content));
    assert_eq!(resolve_object(content, "target/obj"), expected);
}

#[test]
fn test_resolve_object_depends_on_content_alone() {
    // The same bytes, as if read from two different paths, resolve to the
    // same object filename.
    let original = b"int shared(void) { return 7; }\n".to_vec();
    let copied_elsewhere = original.clone();
    let a = resolve_object(&original, "target/obj");
    let b = resolve_object(&copied_elsewhere, "target/obj");
    assert_eq!(a, b);
}

#[test]
fn test_resolve_object_changes_with_content() {
    let before = b"int version(void) { return 1; }\n";
    let mut after = before.to_vec();
    let last = after.len() - 2;
    after[last] = b'2';
    let old_path = resolve_object(before, "target/obj");
    let new_path = resolve_object(&after, "target/obj");
    assert_ne!(old_path, new_path);
    // The old name is still derivable: nothing about the new content hides
    // or rewrites the previous object's name.
    assert_eq!(old_path, resolve_object(before, "target/obj"));
}

#[test]
fn test_objects_for_in_order() {
    let contents: Vec<Vec<u8>> = vec![b"a".to_vec(), b"b".to_vec()];
    let objects = objects_for(&contents, "obj");
    assert_eq!(objects.len(), 2);
    assert_eq!(objects[0], resolve_object(b"a", "obj"));
    assert_eq!(objects[1], resolve_object(b"b", "obj"));
    assert_ne!(objects[0], objects[1]);
}
