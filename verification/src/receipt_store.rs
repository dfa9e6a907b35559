//! The keys of the receipt store, which keeps the uploaded files. A key is
//! drawn anew for each receipt; the name that the client gave the file lends
//! it its extension and nothing else.

use crate::text::{chars_of, text_of};
use vstd::prelude::*;

verus! {

/// A character of a unique identifier: a lower-case hexadecimal digit or a
/// hyphen.
pub open spec fn is_identifier_char(c: char) -> bool {
    ('0' <= c <= '9') || ('a' <= c <= 'f') || c == '-'
}

/// A unique identifier as it is drawn for a receipt: 36 characters, each a
/// lower-case hexadecimal digit or a hyphen.
pub open spec fn is_identifier(id: Seq<char>) -> bool {
    &&& id.len() == 36
    &&& forall|i: int| 0 <= i < id.len() ==> is_identifier_char(#[trigger] id[i])
}

/// A character that parts one component of a path from the next on some
/// platform: a slash or a backslash.
pub open spec fn is_separator(c: char) -> bool {
    c == '/' || c == '\\'
}

/// Whether `text` holds a separator.
pub open spec fn has_separator(text: Seq<char>) -> bool {
    exists|i: int| 0 <= i < text.len() && is_separator(#[trigger] text[i])
}

/// An extension as it may stand in a key: without a point and without a
/// separator.
pub open spec fn is_extension(extension: Seq<char>) -> bool {
    !extension.contains('.') && !has_separator(extension)
}

/// A file name that is a name and nothing else, on every platform: it is
/// not empty, holds no slash, no backslash and no colon, and is not `..`.
/// Such a name is its own final component wherever it is read as a path.
pub open spec fn is_plain_name(name: Seq<char>) -> bool {
    &&& name.len() > 0
    &&& !has_separator(name)
    &&& !name.contains(':')
    &&& name != seq!['.', '.']
}

/// Where the last point of `name` stands, or -1 where it has none.
pub open spec fn last_point(name: Seq<char>) -> int
    decreases name.len(),
{
    if name.len() == 0 {
        -1
    } else if name.last() == '.' {
        name.len() - 1
    } else {
        last_point(name.drop_last())
    }
}

/// The extension of a plain file name: what follows its last point, where
/// that point does not stand at the very beginning; a name without a point,
/// or whose only point is its first character, has none.
pub open spec fn plain_extension(name: Seq<char>) -> Option<Seq<char>> {
    if last_point(name) >= 1 {
        Some(name.skip(last_point(name) + 1))
    } else {
        None
    }
}

/// A random identifier: `uuid::Uuid::new_v4`, written as `Uuid`'s `Display`
/// writes it, which is the hyphenated form in lower case. Which identifier
/// comes is left open; only its shape is stated.
#[verifier::external_body]
fn fresh_identifier() -> (id: String)
    ensures
        is_identifier(id@),
{
    uuid::Uuid::new_v4().to_string()
}

/// The extension of a file name, as `std::path::Path::extension` finds it:
/// the part of the final component after its last point, unless that point
/// is the component's first character. So the extension holds no point. For
/// a plain name, which is its own final component on every platform, the
/// extension is the one of the name. Of any other name nothing more is
/// stated: what its final component is depends on the platform.
#[verifier::external_body]
fn extension_of(filename: &str) -> (extension: Option<String>)
    ensures
        extension matches Some(e) ==> !e@.contains('.'),
        is_plain_name(filename@) ==> text_of(extension) == plain_extension(filename@),
{
    std::path::Path::new(filename).extension().and_then(|e| e.to_str()).map(|e| e.to_owned())
}

/// The extension that a key ends in, for a file name with the given
/// extension: that extension, or `bin` where the name has none, an empty
/// one, or one that holds a separator.
pub open spec fn key_extension(extension: Option<Seq<char>>) -> Seq<char> {
    match extension {
        Some(e) => if e.len() > 0 && !has_separator(e) {
            e
        } else {
            seq!['b', 'i', 'n']
        },
        None => seq!['b', 'i', 'n'],
    }
}

/// The key of a receipt with identifier `id` whose file name has the given
/// extension: the identifier, a point, and the extension that the key ends
/// in.
pub open spec fn key_from(id: Seq<char>, extension: Option<Seq<char>>) -> Seq<char> {
    id + seq!['.'] + key_extension(extension)
}

/// Whether `key` has the shape of a receipt key: an identifier, a point,
/// and an extension that is not empty.
pub open spec fn is_receipt_key(key: Seq<char>) -> bool {
    exists|id: Seq<char>, extension: Seq<char>|
        {
            &&& is_identifier(id)
            &&& is_extension(extension)
            &&& extension.len() > 0
            &&& key == #[trigger] (id + seq!['.'] + extension)
        }
}

/// Whether `key` is a key that may be drawn for a receipt whose file was
/// called `filename`: a key from some identifier and some extension without
/// a point, which is the extension of the name where the name is plain.
pub open spec fn is_key_for(key: Seq<char>, filename: Seq<char>) -> bool {
    exists|id: Seq<char>, extension: Option<Seq<char>>|
        {
            &&& is_identifier(id)
            &&& extension matches Some(e) ==> !e.contains('.')
            &&& is_plain_name(filename) ==> extension == plain_extension(filename)
            &&& key == #[trigger] key_from(id, extension)
        }
}

/// Whether `text` holds a separator.
pub fn holds_separator(text: &str) -> (b: bool)
    ensures
        b == has_separator(text@),
{
    let chars = chars_of(text);
    let mut i: usize = 0;
    while i < chars.len()
        invariant
            i <= chars.len(),
            chars@ == text@,
            forall|k: int| 0 <= k < i ==> !is_separator(#[trigger] text@[k]),
        decreases chars.len() - i,
    {
        if chars[i] == '/' || chars[i] == '\\' {
            assert(is_separator(text@[i as int]));
            return true;
        }
        i += 1;
    }
    false
}

/// The key of a receipt with identifier `id` whose file name has the given
/// extension. An extension that holds a separator does not go into the key.
pub fn receipt_key_from(id: String, extension: Option<String>) -> (key: String)
    ensures
        key@ == key_from(id@, text_of(extension)),
{
    let mut key = id;
    proof {
        reveal_strlit(".");
        reveal_strlit(".bin");
        assert("."@ =~= seq!['.']);
        assert(".bin"@ =~= seq!['.', 'b', 'i', 'n']);
        assert(seq!['.'] + seq!['b', 'i', 'n'] =~= seq!['.', 'b', 'i', 'n']);
    }
    let ghost start = key@;
    match extension {
        Some(e) => {
            if e.as_str().is_empty() || holds_separator(e.as_str()) {
                key.append(".bin");
                assert(key@ =~= start + seq!['.'] + seq!['b', 'i', 'n']);
            } else {
                key.append(".");
                key.append(e.as_str());
            }
        },
        None => {
            key.append(".bin");
            assert(key@ =~= start + seq!['.'] + seq!['b', 'i', 'n']);
        },
    }
    key
}

/// A new key for a receipt whose file was called `filename`: a random
/// identifier, a point, and the extension of the file name, or `bin` where
/// the name has no extension that can stand in a key. The name itself does
/// not go into the key.
pub fn new_receipt_key(filename: &str) -> (key: String)
    ensures
        is_key_for(key@, filename@),
        is_receipt_key(key@),
        is_plain_name(filename@) ==> exists|id: Seq<char>|
            is_identifier(id) && key@ == #[trigger] key_from(id, plain_extension(filename@)),
{
    let id = fresh_identifier();
    let extension = extension_of(filename);
    let ghost witness_id = id@;
    let ghost witness_extension = text_of(extension);
    let key = receipt_key_from(id, extension);
    proof {
        assert(key@ == key_from(witness_id, witness_extension));
        key_for_a_name_is_a_receipt_key(key@, filename@);
    }
    key
}

/// A key drawn for a file name has the shape of a receipt key, whatever the
/// name.
pub proof fn key_for_a_name_is_a_receipt_key(key: Seq<char>, filename: Seq<char>)
    requires
        is_key_for(key, filename),
    ensures
        is_receipt_key(key),
{
    let (id, extension) = choose|id: Seq<char>, extension: Option<Seq<char>>|
        {
            &&& is_identifier(id)
            &&& extension matches Some(e) ==> !e.contains('.')
            &&& is_plain_name(filename) ==> extension == plain_extension(filename)
            &&& key == #[trigger] key_from(id, extension)
        };
    let ending = key_extension(extension);
    let bin = seq!['b', 'i', 'n'];
    if ending == bin {
        if bin.contains('.') {
            let i = choose|i: int| 0 <= i < bin.len() && bin[i] == '.';
        }
        if has_separator(bin) {
            let i = choose|i: int| 0 <= i < bin.len() && is_separator(#[trigger] bin[i]);
        }
    }
    assert(is_extension(ending));
    assert(key == id + seq!['.'] + ending);
}

/// A receipt key names no directory on any platform: it holds no separator.
/// Its one point parts the identifier from the extension.
pub proof fn receipt_key_is_flat(key: Seq<char>)
    requires
        is_receipt_key(key),
    ensures
        !has_separator(key),
        !key.contains('/'),
        key.len() >= 38,
        key[36] == '.',
        forall|i: int| 0 <= i < key.len() && i != 36 ==> key[i] != '.',
{
    let (id, extension) = choose|id: Seq<char>, extension: Seq<char>|
        {
            &&& is_identifier(id)
            &&& is_extension(extension)
            &&& extension.len() > 0
            &&& key == #[trigger] (id + seq!['.'] + extension)
        };
    assert forall|i: int| 0 <= i < key.len() implies !is_separator(#[trigger] key[i]) && (i != 36
        ==> key[i] != '.') by {
        if i < 36 {
            assert(is_identifier_char(id[i]));
        } else if i > 36 {
            assert(key[i] == extension[i - 37]);
            if is_separator(extension[i - 37]) {
                assert(has_separator(extension));
            }
            if extension[i - 37] == '.' {
                assert(extension.contains('.'));
            }
        }
    }
    if key.contains('/') {
        let i = choose|i: int| 0 <= i < key.len() && key[i] == '/';
        assert(is_separator(key[i]));
    }
}

/// The extension of a plain name holds no point and no separator: it goes
/// into the key as it is, unless it is empty.
pub proof fn plain_extension_is_an_extension(name: Seq<char>)
    requires
        is_plain_name(name),
    ensures
        plain_extension(name) matches Some(e) ==> is_extension(e) && key_extension(Some(e)) == (
        if e.len() > 0 {
            e
        } else {
            seq!['b', 'i', 'n']
        }),
{
    if let Some(e) = plain_extension(name) {
        let at = last_point(name);
        last_point_is_the_last(name);
        if e.contains('.') {
            let i = choose|i: int| 0 <= i < e.len() && e[i] == '.';
            assert(name[at + 1 + i] == '.');
        }
        if has_separator(e) {
            let i = choose|i: int| 0 <= i < e.len() && is_separator(#[trigger] e[i]);
            assert(is_separator(name[at + 1 + i]));
        }
    }
}

/// The last point of a name is a point, and no point follows it; a name
/// without a point has none.
pub proof fn last_point_is_the_last(name: Seq<char>)
    ensures
        -1 <= last_point(name) < name.len(),
        last_point(name) >= 0 ==> name[last_point(name)] == '.',
        forall|i: int| last_point(name) < i < name.len() ==> name[i] != '.',
    decreases name.len(),
{
    if name.len() > 0 && name.last() != '.' {
        last_point_is_the_last(name.drop_last());
        assert forall|i: int| last_point(name) < i < name.len() implies name[i] != '.' by {
            if i < name.len() - 1 {
                assert(name.drop_last()[i] != '.');
            }
        }
    }
}

} // verus!
