//! What an archive hands over: the names of its resources, and their bytes.

use std::io::Read;
use vstd::prelude::*;
use vstd::seq_lib::{to_multiset_build, to_multiset_insert};
use vstd::string::*;
use vstd::utf8::{decode_utf8, encode_utf8, valid_utf8};
use crate::error::I3SError;
use crate::text::{
    contains_bytes,
    find_bytes,
    first_occurrence,
    leading_number,
    parse_leading_number,
};

verus! {

/// Why a reader of `std::io` failed.
#[verifier::external_type_specification]
#[verifier::external_body]
pub struct ExIoError(std::io::Error);

/// Why `String::from_utf8` refused its bytes.
#[verifier::external_type_specification]
#[verifier::external_body]
pub struct ExFromUtf8Error(std::string::FromUtf8Error);

/// The name of the scene-layer descriptor inside an archive.
pub fn scene_layer_path() -> (name: &'static str)
    ensures
        name@ == "3dSceneLayer.json.gz"@,
{
    "3dSceneLayer.json.gz"
}

/// The name of the metadata inside an archive.
pub fn metadata_path() -> (name: &'static str)
    ensures
        name@ == "metadata.json"@,
{
    "metadata.json"
}

/// Whether a resource of this name is a node page: its name holds
/// `nodepages`.
pub open spec fn is_node_page_path(name: Seq<char>) -> bool {
    contains_bytes(encode_utf8(name), encode_utf8("nodepages"@))
}

/// The node pages among the given names, in the order of the names.
pub open spec fn node_page_paths(names: Seq<String>) -> Seq<String>
    decreases names.len(),
{
    if names.len() == 0 {
        Seq::<String>::empty()
    } else if is_node_page_path(names.last()@) {
        node_page_paths(names.drop_last()).push(names.last())
    } else {
        node_page_paths(names.drop_last())
    }
}

/// The names of the node pages among the names of an archive's resources,
/// in the order in which the archive lists them.
pub fn find_node_page_paths(names: &Vec<String>) -> (paths: Vec<String>)
    ensures
        paths@ == node_page_paths(names@),
{
    let marker: &[u8] = "nodepages".as_bytes();
    let mut paths: Vec<String> = Vec::new();
    let mut i: usize = 0;
    assert(names@.take(0) =~= Seq::<String>::empty());
    while i < names.len()
        invariant
            i <= names@.len(),
            marker@ == encode_utf8("nodepages"@),
            paths@ == node_page_paths(names@.take(i as int)),
        decreases names@.len() - i,
    {
        let name: &String = &names[i];
        proof {
            let next = names@.take(i + 1);
            assert(next.drop_last() =~= names@.take(i as int));
            assert(next.last() == names@[i as int]);
        }
        if find_bytes(name.as_str().as_bytes(), marker).is_some() {
            paths.push(name.clone());
        }
        i = i + 1;
    }
    assert(names@.take(names@.len() as int) =~= names@);
    paths
}

/// The number of the node page that a path names: the decimal number that
/// follows the first `nodepages/` of the path. There is none where the path
/// holds no `nodepages/`, where no digit follows it, or where the number does
/// not fit.
pub open spec fn spec_node_page_number(path: Seq<char>) -> Option<usize> {
    let bytes = encode_utf8(path);
    let marker = encode_utf8("nodepages/"@);
    match first_occurrence(bytes, marker) {
        None => None,
        Some(at) => match leading_number(bytes.skip(at + marker.len())) {
            Some(n) => if n <= usize::MAX {
                Some(n as usize)
            } else {
                None
            },
            None => None,
        },
    }
}

/// The number of the node page that a path names, as `nodepages/12.json.gz`
/// names page 12.
pub fn node_page_number(path: &str) -> (r: Option<usize>)
    ensures
        r == spec_node_page_number(path@),
{
    let bytes: &[u8] = path.as_bytes();
    let marker: &[u8] = "nodepages/".as_bytes();
    match find_bytes(bytes, marker) {
        None => None,
        Some(at) => {
            let total: usize = bytes.len();
            assert(at + marker@.len() <= total);
            parse_leading_number(bytes, at + marker.len())
        },
    }
}

/// The place of a path in page order: its page number, and behind all page
/// numbers where it has none.
pub open spec fn page_rank(path: Seq<char>) -> int {
    match spec_node_page_number(path) {
        Some(n) => n as int,
        None => usize::MAX + 1,
    }
}

/// Whether the paths stand in ascending page order.
pub open spec fn in_page_order(paths: Seq<String>) -> bool {
    forall|i: int, j: int| 0 <= i < j < paths.len() ==> page_rank(paths[i]@) <= page_rank(paths[j]@)
}

/// Whether the first page number does not come behind the second.
fn rank_le(a: Option<usize>, b: Option<usize>) -> (r: bool)
    ensures
        r == (match a {
            Some(n) => n as int,
            None => usize::MAX + 1,
        } <= match b {
            Some(n) => n as int,
            None => usize::MAX + 1,
        }),
{
    match (a, b) {
        (Some(x), Some(y)) => x <= y,
        (Some(_), None) => true,
        (None, Some(_)) => false,
        (None, None) => true,
    }
}

/// The given paths in ascending page order. The paths that name no page
/// number come last. Nothing is added or lost.
pub fn sort_node_page_paths(paths: &Vec<String>) -> (sorted: Vec<String>)
    ensures
        in_page_order(sorted@),
        sorted@.to_multiset() == paths@.to_multiset(),
{
    let mut sorted: Vec<String> = Vec::new();
    let mut numbers: Vec<Option<usize>> = Vec::new();
    let mut i: usize = 0;
    assert(paths@.take(0) =~= Seq::<String>::empty());
    while i < paths.len()
        invariant
            i <= paths@.len(),
            numbers@.len() == sorted@.len(),
            forall|k: int| 0 <= k < sorted@.len() ==> #[trigger] numbers@[k] == spec_node_page_number(sorted@[k]@),
            in_page_order(sorted@),
            sorted@.to_multiset() == paths@.take(i as int).to_multiset(),
        decreases paths@.len() - i,
    {
        let path: &String = &paths[i];
        let number: Option<usize> = node_page_number(path.as_str());
        let mut at: usize = 0;
        while at < sorted.len() && rank_le(numbers[at], number)
            invariant
                at <= sorted@.len(),
                numbers@.len() == sorted@.len(),
                number == spec_node_page_number(path@),
                forall|k: int|
                    0 <= k < sorted@.len() ==> #[trigger] numbers@[k] == spec_node_page_number(sorted@[k]@),
                forall|k: int| 0 <= k < at ==> page_rank(#[trigger] sorted@[k]@) <= page_rank(path@),
            decreases sorted@.len() - at,
        {
            at = at + 1;
        }
        proof {
            let before = sorted@;
            let after = before.insert(at as int, *path);
            assert forall|a: int, b: int| 0 <= a < b < after.len() implies page_rank(after[a]@) <= page_rank(
                after[b]@,
            ) by {
                if b < at {
                    assert(after[a] == before[a] && after[b] == before[b]);
                } else if b == at {
                    assert(after[a] == before[a]);
                } else if a < at {
                    assert(after[a] == before[a] && after[b] == before[b - 1]);
                } else if a == at {
                    assert(after[b] == before[b - 1]);
                    assert(numbers@[at as int] == spec_node_page_number(before[at as int]@));
                } else {
                    assert(after[a] == before[a - 1] && after[b] == before[b - 1]);
                }
            }
            to_multiset_insert(before, at as int, *path);
            let next = paths@.take(i + 1);
            assert(next =~= paths@.take(i as int).push(*path));
            to_multiset_build(paths@.take(i as int), *path);
        }
        sorted.insert(at, path.clone());
        numbers.insert(at, number);
        i = i + 1;
    }
    assert(paths@.take(paths@.len() as int) =~= paths@);
    sorted
}

/// What a gzip stream decompresses to, or `None` where the bytes are no
/// sound gzip stream.
pub uninterp spec fn gzip_decoded(bytes: Seq<u8>) -> Option<Seq<u8>>;

/// `flate2::read::GzDecoder` read to its end over a byte slice. The decoder
/// reads nothing but the bytes, so the same bytes always decompress to the
/// same data, or always fail: `gzip_decoded` names that outcome.
#[verifier::external_body]
fn gunzip(buffer: &[u8]) -> (r: Result<Vec<u8>, std::io::Error>)
    ensures
        match r {
            Ok(data) => gzip_decoded(buffer@) == Some(data@),
            Err(_) => gzip_decoded(buffer@) is None,
        },
{
    let mut decoder = flate2::read::GzDecoder::new(buffer);
    let mut decompressed = Vec::new();
    decoder.read_to_end(&mut decompressed)?;
    Ok(decompressed)
}

/// `String::from_utf8`: the text that the bytes encode, where they are valid
/// UTF-8, and an error where they are not.
#[verifier::external_body]
fn text_from_utf8(bytes: Vec<u8>) -> (r: Result<String, std::string::FromUtf8Error>)
    ensures
        match r {
            Ok(text) => valid_utf8(bytes@) && text@ == decode_utf8(bytes@),
            Err(_) => !valid_utf8(bytes@),
        },
{
    String::from_utf8(bytes)
}

/// Decompresses a gzip buffer. Bytes that are no sound gzip stream are
/// refused with `Decode`.
pub fn decode_gzip_buffer(buffer: &[u8]) -> (r: Result<Vec<u8>, I3SError>)
    ensures
        match r {
            Ok(data) => gzip_decoded(buffer@) == Some(data@),
            Err(e) => e == I3SError::Decode && gzip_decoded(buffer@) is None,
        },
{
    match gunzip(buffer) {
        Ok(data) => Ok(data),
        Err(_) => Err(I3SError::Decode),
    }
}

/// What `decode_json_gz` makes of decompressed data: the text that it
/// encodes, or `Decode` where it is not valid UTF-8.
pub open spec fn spec_text(data: Seq<u8>) -> Result<Seq<char>, I3SError> {
    if valid_utf8(data) {
        Ok(decode_utf8(data))
    } else {
        Err(I3SError::Decode)
    }
}

/// The text of decompressed data, or `Decode` where it is not valid UTF-8.
pub fn text_of_bytes(data: Vec<u8>) -> (r: Result<String, I3SError>)
    ensures
        match r {
            Ok(text) => spec_text(data@) == Ok::<Seq<char>, I3SError>(text@),
            Err(e) => spec_text(data@) == Err::<Seq<char>, I3SError>(e),
        },
{
    match text_from_utf8(data) {
        Ok(text) => Ok(text),
        Err(_) => Err(I3SError::Decode),
    }
}

/// The text of a gzip-compressed JSON resource. Bytes that are no sound gzip
/// stream, or that decompress to something that is not valid UTF-8, are
/// refused with `Decode`.
pub fn decode_json_gz(json_gz: &[u8]) -> (r: Result<String, I3SError>)
    ensures
        match r {
            Ok(text) => gzip_decoded(json_gz@) is Some && spec_text(gzip_decoded(json_gz@)->0) == Ok::<
                Seq<char>,
                I3SError,
            >(text@),
            Err(e) => e == I3SError::Decode && (gzip_decoded(json_gz@) is None || spec_text(
                gzip_decoded(json_gz@)->0,
            ) is Err),
        },
{
    match decode_gzip_buffer(json_gz) {
        Ok(data) => text_of_bytes(data),
        Err(e) => Err(e),
    }
}

} // verus!
