use tts_bridge::blob::SharedBlob;

#[test]
fn fresh_blob_is_empty() {
    let blob = SharedBlob::new();
    assert_eq!(blob.get(), "");
}

#[test]
fn get_returns_what_was_saved() {
    let mut blob = SharedBlob::new();
    blob.save("hello".to_string());
    assert_eq!(blob.get(), "hello");
}

#[test]
fn last_write_wins() {
    let mut blob = SharedBlob::new();
    blob.save("first".to_string());
    blob.save("second, and longer".to_string());
    blob.save("3".to_string());
    assert_eq!(blob.get(), "3");
}

#[test]
fn save_replaces_the_whole_text() {
    let mut blob = SharedBlob::new();
    blob.save("a long text that is there first".to_string());
    blob.save("short".to_string());
    assert_eq!(blob.get(), "short");
    blob.save(String::new());
    assert_eq!(blob.get(), "");
}

#[test]
fn get_does_not_change_the_text() {
    let mut blob = SharedBlob::new();
    blob.save("kept \"as\" it\\is\n".to_string());
    assert_eq!(blob.get(), "kept \"as\" it\\is\n");
    assert_eq!(blob.get(), "kept \"as\" it\\is\n");
}

#[test]
fn every_save_in_a_row_is_seen_whole() {
    let texts = ["alpha", "", "βήτα", "a\"b\\c", "the last one"];
    let mut blob = SharedBlob::new();
    for text in texts {
        blob.save(text.to_string());
        assert_eq!(blob.get(), text);
    }
}
