use buo_util::meta::{DirMeta, MediaMeta, RawMediaMeta};
use buo_util::normalize::{join_stats, normalize_media};
use buo_util::pipeline::{
    classify, finish_directory_query, finish_media_query, serialize, structured_result,
    Classification, QueryError, QueryResult,
};

fn sample_raw() -> RawMediaMeta {
    RawMediaMeta {
        file_name: "track.flac".to_string(),
        title: Some("Track".to_string()),
        author: None,
        duration: Some("Duration { secs: 245, nanos: 0 }".to_string()),
        date: None,
        stats: None,
        display_extra: false,
        extra: None,
    }
}

#[test]
fn missing_path_is_not_found() {
    assert_eq!(classify(false, false), Classification::NotFound);
    assert_eq!(classify(false, true), Classification::NotFound);
}

#[test]
fn existing_directory_is_directory() {
    assert_eq!(classify(true, true), Classification::Directory);
}

#[test]
fn existing_non_directory_is_media() {
    assert_eq!(classify(true, false), Classification::Media);
}

#[test]
fn directory_query_populates_only_directory_slot() {
    let dir = DirMeta {
        path: "/music/albums".to_string(),
        disk_size: "12.4 MB".to_string(),
        num_files: 3,
    };
    let result = finish_directory_query(Ok(dir.clone())).unwrap();
    let (dir_slot, media_slot) = structured_result(result);
    let got = dir_slot.expect("directory slot must be populated");
    assert_eq!(got.path, "/music/albums");
    assert_eq!(got.disk_size, "12.4 MB");
    assert_eq!(got.num_files, 3);
    assert!(media_slot.is_none());
}

#[test]
fn media_query_populates_only_media_slot() {
    let result = finish_media_query(Ok(sample_raw())).unwrap();
    let (dir_slot, media_slot) = structured_result(result);
    assert!(dir_slot.is_none());
    let got = media_slot.expect("media slot must be populated");
    assert_eq!(got.title, Some("Track".to_string()));
    assert_eq!(got.author, None);
    assert!(!got.duration.clone().unwrap().is_empty());
    assert_eq!(got.stats, None);
}

#[test]
fn engine_failure_carries_message_unchanged() {
    let dir_err = finish_directory_query(Err("walk failed".to_string()));
    assert_eq!(
        dir_err,
        Err(QueryError::EngineFailure("walk failed".to_string()))
    );
    let media_err = finish_media_query(Err("unsupported container".to_string()));
    assert_eq!(
        media_err,
        Err(QueryError::EngineFailure("unsupported container".to_string()))
    );
}

#[test]
fn repeated_normalization_is_structurally_equal() {
    let raw = RawMediaMeta {
        stats: Some(vec!["bitrate: 900".to_string(), "channels: 2".to_string()]),
        extra: Some("remastered".to_string()),
        ..sample_raw()
    };
    let first = normalize_media(raw.clone());
    let second = normalize_media(raw);
    assert_eq!(first, second);
}

#[test]
fn repeated_serialization_is_byte_identical() {
    let record = QueryResult::Media(normalize_media(sample_raw()));
    assert_eq!(serialize(&record), serialize(&record));
}

#[test]
fn absent_stats_stay_absent() {
    let normalized = normalize_media(RawMediaMeta {
        stats: None,
        ..sample_raw()
    });
    assert_eq!(normalized.stats, None);
}

#[test]
fn empty_stats_become_empty_string() {
    let normalized = normalize_media(RawMediaMeta {
        stats: Some(vec![]),
        ..sample_raw()
    });
    assert_eq!(normalized.stats, Some(String::new()));
}

#[test]
fn stats_join_with_newlines_in_order() {
    let entries = vec![
        "bitrate: 900 kbps".to_string(),
        "channels: 2".to_string(),
        "sample rate: 44100 Hz".to_string(),
    ];
    assert_eq!(
        join_stats(&entries),
        "bitrate: 900 kbps\nchannels: 2\nsample rate: 44100 Hz"
    );
    let one = vec!["lufs: -14".to_string()];
    assert_eq!(join_stats(&one), "lufs: -14");
}

#[test]
fn extra_survives_disabled_display_flag() {
    let normalized = normalize_media(RawMediaMeta {
        display_extra: false,
        extra: Some("hidden note".to_string()),
        ..sample_raw()
    });
    assert_eq!(normalized.display_extra, false);
    assert_eq!(normalized.extra, Some("hidden note".to_string()));
}

#[test]
fn directory_canonical_document() {
    let record = QueryResult::Directory(DirMeta {
        path: "/music/albums".to_string(),
        disk_size: "12.4 MB".to_string(),
        num_files: 3,
    });
    assert_eq!(
        serialize(&record),
        "{\"path\":\"/music/albums\",\"disk_size\":\"12.4 MB\",\"num_files\":3}"
    );
}

#[test]
fn media_canonical_document() {
    let record = QueryResult::Media(MediaMeta {
        file_name: "track.flac".to_string(),
        title: Some("Track".to_string()),
        author: None,
        duration: Some("Duration { secs: 245, nanos: 0 }".to_string()),
        media_date: None,
        stats: Some("bitrate: 900\nchannels: 2".to_string()),
        display_extra: true,
        extra: Some("note".to_string()),
    });
    let expected = "{\"file_name\":\"track.flac\",\"title\":\"Track\",\"author\":null,\"duration\":\"Duration { secs: 245, nanos: 0 }\",\"media_date\":null,\"stats\":\"bitrate: 900\\nchannels: 2\",\"display_extra\":true,\"extra\":\"note\"}";
    assert_eq!(serialize(&record), expected);
}

#[test]
fn canonical_document_escapes_strings() {
    let record = QueryResult::Directory(DirMeta {
        path: "a\"b\\c\nd\te\rf\u{1}g".to_string(),
        disk_size: "1 B".to_string(),
        num_files: 0,
    });
    assert_eq!(
        serialize(&record),
        "{\"path\":\"a\\\"b\\\\c\\nd\\te\\rf\\u0001g\",\"disk_size\":\"1 B\",\"num_files\":0}"
    );
}

#[test]
fn number_rendering_covers_bounds() {
    let small = QueryResult::Directory(DirMeta {
        path: "p".to_string(),
        disk_size: "0 B".to_string(),
        num_files: 0,
    });
    assert!(serialize(&small).ends_with("\"num_files\":0}"));
    let large = QueryResult::Directory(DirMeta {
        path: "p".to_string(),
        disk_size: "huge".to_string(),
        num_files: u64::MAX,
    });
    assert!(serialize(&large).ends_with("\"num_files\":18446744073709551615}"));
}
