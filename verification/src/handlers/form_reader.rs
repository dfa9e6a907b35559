//! Reading a multipart form part by part: the text fields are collected,
//! the receipt file goes to the receipt store.


use crate::receipt_store::{is_key_for, is_receipt_key, new_receipt_key};
use crate::text::{clone_text, same_text, text_of};
use vstd::hash_map::StringHashMap;
use vstd::prelude::*;
use vstd::utf8::{decode_utf8, encode_utf8, encode_utf8_decode_utf8, valid_utf8};

verus! {

/// The text that `bytes` encode, as `String::from_utf8` decodes it: there is
/// one exactly when the bytes are valid UTF-8, and its encoding is these
/// bytes.
#[verifier::external_body]
fn text_from_utf8(bytes: Vec<u8>) -> (text: Option<String>)
    ensures
        text is Some <==> valid_utf8(bytes@),
        text matches Some(t) ==> encode_utf8(t@) == bytes@,
{
    String::from_utf8(bytes).ok()
}

/// The text of a form field sent as `bytes`: the text they encode, or the
/// empty text where they are not valid UTF-8.
pub open spec fn field_text(bytes: Seq<u8>) -> Seq<char> {
    if valid_utf8(bytes) {
        decode_utf8(bytes)
    } else {
        Seq::empty()
    }
}

/// The text of a form field sent as `bytes`.
pub fn decode_field(bytes: Vec<u8>) -> (text: String)
    ensures
        text@ == field_text(bytes@),
{
    match text_from_utf8(bytes) {
        Some(text) => {
            proof {
                encode_utf8_decode_utf8(text@);
            }
            text
        },
        None => String::new(),
    }
}

/// The name of the form part that carries the receipt file.
pub const RECEIPT_FIELD: &'static str = "receipt";

/// The texts of a map of form fields.
pub open spec fn texts_of(fields: Map<Seq<char>, String>) -> Map<Seq<char>, Seq<char>> {
    fields.map_values(|text: String| text@)
}

/// What was read of a multipart form: its text fields by name, and the
/// receipt that came with it.
pub struct ExpenseForm {
    fields: StringHashMap<String>,
    stored_filename: Option<String>,
    original_filename: Option<String>,
}

/// What a form holds, as mathematical values.
pub struct ExpenseFormView {
    pub fields: Map<Seq<char>, Seq<char>>,
    pub stored_filename: Option<Seq<char>>,
    pub original_filename: Option<Seq<char>>,
}

impl View for ExpenseForm {
    type V = ExpenseFormView;

    closed spec fn view(&self) -> ExpenseFormView {
        ExpenseFormView {
            fields: texts_of(self.fields@),
            stored_filename: text_of(self.stored_filename),
            original_filename: text_of(self.original_filename),
        }
    }
}

impl ExpenseFormView {
    /// The form without fields and without a receipt.
    pub open spec fn empty() -> ExpenseFormView {
        ExpenseFormView { fields: Map::empty(), stored_filename: None, original_filename: None }
    }

    /// The text of the field `name`, if the form has it.
    pub open spec fn field(self, name: Seq<char>) -> Option<Seq<char>> {
        if self.fields.contains_key(name) {
            Some(self.fields[name])
        } else {
            None
        }
    }
}

impl ExpenseForm {
    /// A form without fields and without a receipt.
    pub fn new() -> (form: Self)
        ensures
            form@ == ExpenseFormView::empty(),
    {
        let form = ExpenseForm {
            fields: StringHashMap::new(),
            stored_filename: None,
            original_filename: None,
        };
        assert(form@.fields =~= Map::empty());
        form
    }

    /// Sets the field `name` to `text`, in place of what it held.
    pub fn insert(&mut self, name: String, text: String)
        ensures
            final(self)@ == (ExpenseFormView {
                fields: old(self)@.fields.insert(name@, text@),
                ..old(self)@
            }),
    {
        self.fields.insert(name, text);
        assert(final(self)@.fields =~= old(self)@.fields.insert(name@, text@));
    }

    /// The text of the field `name`, if the form has it.
    pub fn get(&self, name: &str) -> (text: Option<String>)
        ensures
            text_of(text) == self@.field(name@),
    {
        match self.fields.get(name) {
            Some(text) => Some(text.clone()),
            None => None,
        }
    }

    /// Puts the receipt on record: the key under which it is stored and the
    /// name of the file as the client sent it.
    pub fn set_receipt(&mut self, stored_filename: Option<String>, original_filename: Option<String>)
        ensures
            final(self)@ == (ExpenseFormView {
                stored_filename: text_of(stored_filename),
                original_filename: text_of(original_filename),
                ..old(self)@
            }),
    {
        self.stored_filename = stored_filename;
        self.original_filename = original_filename;
    }

    /// The key under which the receipt was stored, if one came.
    pub fn stored_filename(&self) -> (key: Option<String>)
        ensures
            text_of(key) == self@.stored_filename,
    {
        clone_text(&self.stored_filename)
    }

    /// The name of the receipt file as the client sent it, if one came.
    pub fn original_filename(&self) -> (name: Option<String>)
        ensures
            text_of(name) == self@.original_filename,
    {
        clone_text(&self.original_filename)
    }

    /// Whether the form has the field `name`.
    pub fn has(&self, name: &str) -> (b: bool)
        ensures
            b == self@.fields.contains_key(name@),
    {
        self.fields.contains_key(name)
    }
}

/// The part of a multipart form that is being read.
#[derive(Debug)]
pub enum FormPart {
    /// No part is open.
    Idle,
    /// A text field, with the bytes that came so far.
    Text { name: String, bytes: Vec<u8> },
    /// The receipt file, which goes to the receipt store under `key`.
    File { key: String },
    /// A part that is passed over: a receipt part without a file name.
    Skipped,
}

/// A form part, as mathematical values.
pub enum FormPartView {
    Idle,
    Text { name: Seq<char>, bytes: Seq<u8> },
    File { key: Seq<char> },
    Skipped,
}

impl View for FormPart {
    type V = FormPartView;

    open spec fn view(&self) -> FormPartView {
        match self {
            FormPart::Idle => FormPartView::Idle,
            FormPart::Text { name, bytes } => FormPartView::Text { name: name@, bytes: bytes@ },
            FormPart::File { key } => FormPartView::File { key: key@ },
            FormPart::Skipped => FormPartView::Skipped,
        }
    }
}

/// What to do with a part that begins.
#[derive(Debug)]
pub enum PartAction {
    /// Hand its chunks to the reader, which collects them.
    Collect,
    /// Open a file under `key` in the receipt store and write its chunks
    /// there, each as it comes.
    Store { key: String },
    /// Pass it over.
    Skip,
}

/// A part action, as mathematical values.
pub enum PartActionView {
    Collect,
    Store { key: Seq<char> },
    Skip,
}

impl View for PartAction {
    type V = PartActionView;

    open spec fn view(&self) -> PartActionView {
        match self {
            PartAction::Collect => PartActionView::Collect,
            PartAction::Store { key } => PartActionView::Store { key: key@ },
            PartAction::Skip => PartActionView::Skip,
        }
    }
}

/// What to do with a chunk of the open part.
#[derive(Debug, Clone, Copy, PartialEq, Eq, Structural)]
pub enum ChunkAction {
    /// The reader has kept it; nothing is left to do.
    Kept,
    /// Write it to the file that was opened for the part.
    Write,
    /// Drop it.
    Drop,
}

/// Reads a multipart form part by part, in the order of arrival. The reader
/// decides and keeps the state; its caller moves the bytes: it tells the
/// reader of each part that begins, of each chunk and of each end, and does
/// what the reader answers.
pub struct FormReader {
    form: ExpenseForm,
    part: FormPart,
}

/// The state of a reader, as mathematical values.
pub struct FormReaderView {
    pub form: ExpenseFormView,
    pub part: FormPartView,
}

impl View for FormReader {
    type V = FormReaderView;

    closed spec fn view(&self) -> FormReaderView {
        FormReaderView { form: self.form@, part: self.part@ }
    }
}

impl FormReaderView {
    /// The reader before the first part.
    pub open spec fn start() -> FormReaderView {
        FormReaderView { form: ExpenseFormView::empty(), part: FormPartView::Idle }
    }

    /// The reader after a part begins with the given name and file name,
    /// where `key` is the new key for a receipt, and what the caller is to do
    /// with the part. A part that was open is given up. The part named
    /// `receipt` is the file if it has a file name, and is passed over if it
    /// has none; every other part is a text field.
    pub open spec fn begin(self, name: Seq<char>, filename: Option<Seq<char>>, key: Seq<char>) -> (
        PartActionView,
        FormReaderView,
    ) {
        if name == RECEIPT_FIELD@ {
            match filename {
                Some(original) => (
                    PartActionView::Store { key },
                    FormReaderView {
                        form: ExpenseFormView { original_filename: Some(original), ..self.form },
                        part: FormPartView::File { key },
                    },
                ),
                None => (
                    PartActionView::Skip,
                    FormReaderView { part: FormPartView::Skipped, ..self },
                ),
            }
        } else {
            (
                PartActionView::Collect,
                FormReaderView {
                    part: FormPartView::Text { name, bytes: Seq::empty() },
                    ..self
                },
            )
        }
    }

    /// The reader after a chunk of the open part, and what the caller is to
    /// do with the chunk: the bytes of a text field are collected, those of
    /// the file are written to the store, and any other are dropped.
    pub open spec fn chunk(self, data: Seq<u8>) -> (ChunkAction, FormReaderView) {
        match self.part {
            FormPartView::Text { name, bytes } => (
                ChunkAction::Kept,
                FormReaderView { part: FormPartView::Text { name, bytes: bytes + data }, ..self },
            ),
            FormPartView::File { key } => (ChunkAction::Write, self),
            _ => (ChunkAction::Drop, self),
        }
    }

    /// The reader after the open part has ended: a text field is set to the
    /// text that its bytes encode, and the file is on record as stored.
    pub open spec fn end(self) -> FormReaderView {
        match self.part {
            FormPartView::Text { name, bytes } => FormReaderView {
                form: ExpenseFormView {
                    fields: self.form.fields.insert(name, field_text(bytes)),
                    ..self.form
                },
                part: FormPartView::Idle,
            },
            FormPartView::File { key } => FormReaderView {
                form: ExpenseFormView { stored_filename: Some(key), ..self.form },
                part: FormPartView::Idle,
            },
            _ => FormReaderView { part: FormPartView::Idle, ..self },
        }
    }
}

impl FormReader {
    /// A reader before the first part.
    pub fn new() -> (reader: Self)
        ensures
            reader@ == FormReaderView::start(),
    {
        FormReader { form: ExpenseForm::new(), part: FormPart::Idle }
    }

    /// A part begins; `key` is the key to store it under if it is the
    /// receipt file.
    pub fn begin_part_with_key(&mut self, name: String, filename: Option<String>, key: String) -> (action:
        PartAction)
        ensures
            (action@, final(self)@) == old(self)@.begin(name@, text_of(filename), key@),
    {
        if same_text(name.as_str(), RECEIPT_FIELD) {
            match filename {
                Some(original) => {
                    let action = PartAction::Store { key: key.clone() };
                    self.form.original_filename = Some(original);
                    self.part = FormPart::File { key };
                    action
                },
                None => {
                    self.part = FormPart::Skipped;
                    PartAction::Skip
                },
            }
        } else {
            self.part = FormPart::Text { name, bytes: Vec::new() };
            PartAction::Collect
        }
    }

    /// A part begins. For the receipt file a new key is drawn: one for the
    /// name that the client gave the file, which ends in the extension of
    /// that name where the name is plain.
    pub fn begin_part(&mut self, name: String, filename: Option<String>) -> (action: PartAction)
        ensures
            exists|key: Seq<char>|
                (action@, final(self)@) == #[trigger] old(self)@.begin(
                    name@,
                    text_of(filename),
                    key,
                ),
            action@ matches PartActionView::Store { key } ==> {
                &&& is_receipt_key(key)
                &&& filename matches Some(original)
                &&& is_key_for(key, original@)
            },
    {
        let key = match &filename {
            Some(original) => new_receipt_key(original.as_str()),
            None => String::new(),
        };
        self.begin_part_with_key(name, filename, key)
    }

    /// A chunk of the open part has come.
    pub fn push_chunk(&mut self, data: &[u8]) -> (action: ChunkAction)
        ensures
            (action, final(self)@) == old(self)@.chunk(data@),
    {
        match &mut self.part {
            FormPart::Text { name, bytes } => {
                extend(bytes, data);
                ChunkAction::Kept
            },
            FormPart::File { key } => ChunkAction::Write,
            _ => ChunkAction::Drop,
        }
    }

    /// The open part has ended.
    pub fn end_part(&mut self)
        ensures
            final(self)@ == old(self)@.end(),
    {
        let mut part = FormPart::Idle;
        std::mem::swap(&mut self.part, &mut part);
        match part {
            FormPart::Text { name, bytes } => {
                let text = decode_field(bytes);
                self.form.insert(name, text);
            },
            FormPart::File { key } => {
                self.form.stored_filename = Some(key);
            },
            _ => {},
        }
    }

    /// The form that was read. A part that is still open is given up.
    pub fn finish(self) -> (form: ExpenseForm)
        ensures
            form@ == self@.form,
    {
        self.form
    }
}

/// A text part becomes a field once it has ended: the field holds the text
/// that all the bytes of the part encode together, in the order in which
/// they came, and takes the place of an earlier field of the same name.
pub proof fn text_part_becomes_a_field(
    reader: FormReaderView,
    name: Seq<char>,
    filename: Option<Seq<char>>,
    key: Seq<char>,
    first: Seq<u8>,
    second: Seq<u8>,
)
    requires
        name != RECEIPT_FIELD@,
    ensures
        reader.begin(name, filename, key).1.chunk(first).1.chunk(second).1.end() == (
        FormReaderView {
            form: ExpenseFormView {
                fields: reader.form.fields.insert(name, field_text(first + second)),
                ..reader.form
            },
            part: FormPartView::Idle,
        }),
        reader.begin(name, filename, key).0 == PartActionView::Collect,
        reader.begin(name, filename, key).1.chunk(first).0 == ChunkAction::Kept,
{
    assert(Seq::<u8>::empty() + first + second =~= first + second);
}

/// The receipt file goes on record once it has ended, under the key that
/// was drawn for it and with the name that the client gave it; none of its
/// bytes is kept, and no field is set.
pub proof fn receipt_part_goes_on_record(
    reader: FormReaderView,
    filename: Seq<char>,
    key: Seq<char>,
    data: Seq<u8>,
)
    ensures
        reader.begin(RECEIPT_FIELD@, Some(filename), key).1.chunk(data).1.end() == (
        FormReaderView {
            form: ExpenseFormView {
                stored_filename: Some(key),
                original_filename: Some(filename),
                ..reader.form
            },
            part: FormPartView::Idle,
        }),
        reader.begin(RECEIPT_FIELD@, Some(filename), key).0 == (PartActionView::Store { key }),
        reader.begin(RECEIPT_FIELD@, Some(filename), key).1.chunk(data).0 == ChunkAction::Write,
{
}

/// Appends `data` to `bytes`.
fn extend(bytes: &mut Vec<u8>, data: &[u8])
    ensures
        final(bytes)@ == old(bytes)@ + data@,
{
    let mut i: usize = 0;
    while i < data.len()
        invariant
            i <= data.len(),
            bytes@ == old(bytes)@ + data@.take(i as int),
        decreases data.len() - i,
    {
        bytes.push(data[i]);
        proof {
            assert(data@.take(i + 1) =~= data@.take(i as int).push(data@[i as int]));
            assert(bytes@ =~= old(bytes)@ + data@.take(i + 1));
        }
        i += 1;
    }
    proof {
        assert(data@.take(i as int) =~= data@);
    }
}

} // verus!
