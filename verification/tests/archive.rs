use std::io::Write;

use i3s::error::I3SError;
use i3s::io::{
    decode_gzip_buffer, decode_json_gz, find_node_page_paths, metadata_path, node_page_number, scene_layer_path,
    sort_node_page_paths, text_of_bytes,
};

fn names(list: &[&str]) -> Vec<String> {
    list.iter().map(|name| name.to_string()).collect()
}

fn gzip(data: &[u8]) -> Vec<u8> {
    let mut encoder = flate2::write::GzEncoder::new(Vec::new(), flate2::Compression::default());
    encoder.write_all(data).unwrap();
    encoder.finish().unwrap()
}

#[test]
fn fixed_names_of_an_archive() {
    assert_eq!(scene_layer_path(), "3dSceneLayer.json.gz");
    assert_eq!(metadata_path(), "metadata.json");
    assert!(find_node_page_paths(&names(&[scene_layer_path(), metadata_path()])).is_empty());
}

#[test]
fn node_pages_are_found_among_the_names() {
    let listing = names(&[
        "3dSceneLayer.json.gz",
        "nodepages/0.json.gz",
        "nodes/0/geometries/0.bin.gz",
        "nodepages/1.json.gz",
        "metadata.json",
        "@specialIndexFileHASH128@",
    ]);
    assert_eq!(find_node_page_paths(&listing), names(&["nodepages/0.json.gz", "nodepages/1.json.gz"]));
}

#[test]
fn node_pages_keep_the_order_of_the_listing() {
    let listing = names(&["nodepages/10.json.gz", "x", "nodepages/2.json.gz", "sub/nodepages/7", "nodepages"]);
    assert_eq!(
        find_node_page_paths(&listing),
        names(&["nodepages/10.json.gz", "nodepages/2.json.gz", "sub/nodepages/7", "nodepages"])
    );
}

#[test]
fn listing_without_node_pages_gives_nothing() {
    assert_eq!(find_node_page_paths(&names(&["metadata.json", "nodepage/0", "NodePages/0"])), Vec::<String>::new());
    assert_eq!(find_node_page_paths(&Vec::new()), Vec::<String>::new());
}

#[test]
fn names_with_other_scripts_are_searched_by_their_bytes() {
    let listing = names(&["données/nodepages/0.json.gz", "日本語.json"]);
    assert_eq!(find_node_page_paths(&listing), names(&["données/nodepages/0.json.gz"]));
}

#[test]
fn page_number_follows_the_marker() {
    assert_eq!(node_page_number("nodepages/0.json.gz"), Some(0));
    assert_eq!(node_page_number("nodepages/12.json.gz"), Some(12));
    assert_eq!(node_page_number("layers/0/nodepages/345"), Some(345));
    assert_eq!(node_page_number("nodepages/007"), Some(7));
    assert_eq!(node_page_number("a/nodepages/1/nodepages/2"), Some(1));
}

#[test]
fn path_without_a_number_has_no_page_number() {
    assert_eq!(node_page_number("nodepages"), None);
    assert_eq!(node_page_number("nodepages/"), None);
    assert_eq!(node_page_number("nodepages/x1"), None);
    assert_eq!(node_page_number("nodepages/-1"), None);
    assert_eq!(node_page_number("nodepages12"), None);
    assert_eq!(node_page_number("metadata.json"), None);
    assert_eq!(node_page_number(""), None);
    assert_eq!(node_page_number("nodepages/99999999999999999999999"), None);
}

#[test]
fn paths_are_put_in_page_order() {
    let listing = names(&[
        "nodepages/10.json.gz",
        "nodepages/2.json.gz",
        "nodepages/0.json.gz",
        "nodepages/1.json.gz",
        "nodepages/11.json.gz",
    ]);
    assert_eq!(
        sort_node_page_paths(&listing),
        names(&[
            "nodepages/0.json.gz",
            "nodepages/1.json.gz",
            "nodepages/2.json.gz",
            "nodepages/10.json.gz",
            "nodepages/11.json.gz",
        ])
    );
}

#[test]
fn paths_without_a_number_come_last() {
    let listing = names(&["nodepages", "nodepages/3", "other", "nodepages/1"]);
    assert_eq!(sort_node_page_paths(&listing), names(&["nodepages/1", "nodepages/3", "nodepages", "other"]));
}

#[test]
fn sorting_keeps_every_path() {
    let listing = names(&["nodepages/1", "nodepages/1", "nodepages/0", "nodepages/1"]);
    assert_eq!(sort_node_page_paths(&listing), names(&["nodepages/0", "nodepages/1", "nodepages/1", "nodepages/1"]));
    assert_eq!(sort_node_page_paths(&Vec::new()), Vec::<String>::new());
    assert_eq!(sort_node_page_paths(&names(&["nodepages/5"])), names(&["nodepages/5"]));
}

#[test]
fn paths_of_one_page_number_keep_their_order() {
    let listing = names(&["b/nodepages/1", "z/nodepages/0", "a/nodepages/1", "c/nodepages/1", "x", "a"]);
    assert_eq!(
        sort_node_page_paths(&listing),
        names(&["z/nodepages/0", "b/nodepages/1", "a/nodepages/1", "c/nodepages/1", "x", "a"])
    );
}

#[test]
fn sorting_agrees_with_a_sort_by_number() {
    let listing: Vec<String> = [7usize, 3, 12, 0, 5, 11, 1, 10, 2, 9, 4, 8, 6]
        .iter()
        .map(|page| format!("nodepages/{}.json.gz", page))
        .collect();
    let expected: Vec<String> = (0usize..13).map(|page| format!("nodepages/{}.json.gz", page)).collect();
    assert_eq!(sort_node_page_paths(&listing), expected);
    let numbers: Vec<Option<usize>> = expected.iter().map(|path| node_page_number(path)).collect();
    assert_eq!(numbers, (0usize..13).map(Some).collect::<Vec<Option<usize>>>());
}

#[test]
fn sorted_paths_stay_as_they_are() {
    let listing = names(&["nodepages/0", "nodepages/1", "nodepages/2"]);
    assert_eq!(sort_node_page_paths(&listing), listing);
}

#[test]
fn gzip_buffer_is_decompressed() {
    let data = b"{\"nodes\": []}";
    let packed = gzip(data);
    assert_ne!(packed, data.to_vec());
    assert_eq!(decode_gzip_buffer(&packed), Ok(data.to_vec()));
}

#[test]
fn empty_gzip_member_decompresses_to_nothing() {
    assert_eq!(decode_gzip_buffer(&gzip(b"")), Ok(Vec::new()));
}

#[test]
fn large_gzip_buffer_is_decompressed() {
    let data: Vec<u8> = (0..200_000u32).map(|i| (i % 251) as u8).collect();
    assert_eq!(decode_gzip_buffer(&gzip(&data)), Ok(data));
}

#[test]
fn bytes_that_are_no_gzip_are_a_decode_error() {
    assert_eq!(decode_gzip_buffer(b"{\"nodes\": []}"), Err(I3SError::Decode));
    assert_eq!(decode_gzip_buffer(b""), Err(I3SError::Decode));
    assert_eq!(decode_gzip_buffer(&[0x1f, 0x8b]), Err(I3SError::Decode));
}

#[test]
fn truncated_gzip_is_a_decode_error() {
    let packed = gzip(b"a node page that is cut off before its end");
    assert_eq!(decode_gzip_buffer(&packed[..packed.len() - 4]), Err(I3SError::Decode));
}

#[test]
fn corrupted_gzip_is_a_decode_error() {
    let mut packed = gzip(b"a node page whose checksum does not match");
    let last = packed.len() - 8;
    packed[last] ^= 0xff;
    assert_eq!(decode_gzip_buffer(&packed), Err(I3SError::Decode));
}

#[test]
fn gzipped_json_is_decoded_to_text() {
    let text = "{\"layerType\": \"Point\", \"name\": \"Zürich\"}";
    assert_eq!(decode_json_gz(&gzip(text.as_bytes())), Ok(text.to_string()));
}

#[test]
fn gzipped_bytes_that_are_no_text_are_a_decode_error() {
    assert_eq!(decode_json_gz(&gzip(&[0xff, 0xfe, 0x00])), Err(I3SError::Decode));
    assert_eq!(decode_json_gz(b"plain"), Err(I3SError::Decode));
}

#[test]
fn bytes_are_read_as_utf8() {
    assert_eq!(text_of_bytes("nœud".as_bytes().to_vec()), Ok("nœud".to_string()));
    assert_eq!(text_of_bytes(Vec::new()), Ok(String::new()));
    assert_eq!(text_of_bytes(vec![0xc3]), Err(I3SError::Decode));
    assert_eq!(text_of_bytes(vec![0xed, 0xa0, 0x80]), Err(I3SError::Decode));
}
