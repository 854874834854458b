use vstd::prelude::*;
use vstd::string::*;

verus! {

/// The clipboard of the page: the text that was pasted last, if any.
///
/// Text that the application puts there goes to the page. It can be read back once the page
/// reports that it was pasted.
pub struct Clipboard {
    pub text: Option<String>,
}

impl View for Clipboard {
    type V = Option<Seq<char>>;

    open spec fn view(&self) -> Option<Seq<char>> {
        match self.text {
            Some(text) => Some(text@),
            None => None,
        }
    }
}

/// One use of a clipboard.
pub enum ClipboardUse {
    /// The page reports a text that was pasted.
    Paste(Seq<char>),
    /// The application reads the clipboard.
    Read,
    /// The application sends a text to the page.
    Send(Seq<char>),
}

/// The clipboard after a use.
pub open spec fn clipboard_after(clipboard: Option<Seq<char>>, used: ClipboardUse) -> Option<
    Seq<char>,
> {
    match used {
        ClipboardUse::Paste(text) => Some(text),
        _ => clipboard,
    }
}

/// A string as C code reads it: its UTF-8 bytes, then a zero byte.
pub open spec fn c_bytes(text: Seq<char>) -> Seq<u8> {
    vstd::utf8::encode_utf8(text).push(0)
}

/// The zero byte ends a C string, so that a text that holds one has no C string.
pub open spec fn holds_nul(text: Seq<char>) -> bool {
    vstd::utf8::encode_utf8(text).contains(0)
}

/// The C string of a text, if it has one.
pub fn c_string(text: &str) -> (res: Option<Vec<u8>>)
    ensures
        res is Some <==> !holds_nul(text@),
        res matches Some(bytes) ==> bytes@ == c_bytes(text@),
{
    let source = text.as_bytes();
    let mut bytes: Vec<u8> = Vec::new();
    let mut i: usize = 0;
    while i < source.len()
        invariant
            i <= source@.len(),
            source@ == vstd::utf8::encode_utf8(text@),
            bytes@ == source@.take(i as int),
            !source@.take(i as int).contains(0),
        decreases source@.len() - i,
    {
        let byte: u8 = source[i];
        if byte == 0 {
            assert(source@[i as int] == 0);
            return None;
        }
        bytes.push(byte);
        assert(source@.take(i + 1) =~= source@.take(i as int).push(byte));
        assert(!source@.take(i + 1).contains(0)) by {
            if source@.take(i + 1).contains(0) {
                let k = source@.take(i + 1).index_of(0);
                assert(source@.take(i as int)[k] == 0);
            }
        }
        i += 1;
    }
    assert(source@.take(i as int) =~= source@);
    bytes.push(0);
    Some(bytes)
}

impl Clipboard {
    /// A clipboard into which nothing was pasted yet.
    pub fn new() -> (clipboard: Self)
        ensures
            clipboard@ is None,
    {
        Clipboard { text: None }
    }

    /// The text that was pasted last.
    pub fn get(&mut self) -> (text: Option<String>)
        ensures
            final(self)@ == clipboard_after(old(self)@, ClipboardUse::Read),
            match text {
                Some(text) => old(self)@ == Some(text@),
                None => old(self)@ is None,
            },
    {
        match &self.text {
            Some(text) => Some(text.clone()),
            None => None,
        }
    }

    /// What the page is given to put on its clipboard: the C string of the text, and the length of
    /// the text in bytes.
    pub fn set(&mut self, data: &str) -> (sent: (Vec<u8>, usize))
        requires
            !holds_nul(data@),
        ensures
            final(self)@ == clipboard_after(old(self)@, ClipboardUse::Send(data@)),
            sent.0@ == c_bytes(data@),
            sent.1 == vstd::utf8::encode_utf8(data@).len(),
    {
        let len: usize = data.as_bytes().len();
        let bytes = c_string(data).unwrap();
        (bytes, len)
    }
}

/// The page reports a text that was pasted.
pub fn on_clipboard_paste(clipboard: &mut Clipboard, msg: String)
    ensures
        final(clipboard)@ == clipboard_after(old(clipboard)@, ClipboardUse::Paste(msg@)),
{
    clipboard.text = Some(msg);
}

/// What the log of the page is given when the program panics: the report of the panic, or, where
/// that has no C string, a note of the place.
pub fn panic_message(report: &str, location: &str) -> (message: Vec<u8>)
    requires
        holds_nul(report@) ==> !holds_nul("MALFORMED ERROR MESSAGE "@ + location@),
    ensures
        message@ == if holds_nul(report@) {
            c_bytes("MALFORMED ERROR MESSAGE "@ + location@)
        } else {
            c_bytes(report@)
        },
{
    match c_string(report) {
        Some(message) => message,
        None => {
            let mut note = String::from_str("MALFORMED ERROR MESSAGE ");
            note.append(location);
            c_string(note.as_str()).unwrap()
        },
    }
}

/// The clipboard after several uses.
pub open spec fn clipboard_after_all(clipboard: Option<Seq<char>>, uses: Seq<ClipboardUse>) -> Option<
    Seq<char>,
>
    decreases uses.len(),
{
    if uses.len() == 0 {
        clipboard
    } else {
        clipboard_after(clipboard_after_all(clipboard, uses.drop_last()), uses.last())
    }
}

/// What can be read is the text that was pasted last: nothing that the application reads or sends
/// to the page changes it.
pub proof fn last_paste_is_read(clipboard: Option<Seq<char>>, uses: Seq<ClipboardUse>, k: int)
    requires
        0 <= k < uses.len(),
        uses[k] is Paste,
        forall|i: int| k < i < uses.len() ==> !(#[trigger] uses[i] is Paste),
    ensures
        clipboard_after_all(clipboard, uses) == Some(uses[k]->Paste_0),
    decreases uses.len(),
{
    let before = uses.drop_last();
    if k < before.len() {
        assert(uses[uses.len() - 1] is Read || uses[uses.len() - 1] is Send);
        assert forall|i: int| k < i < before.len() implies !(#[trigger] before[i] is Paste) by {
            assert(before[i] == uses[i]);
        }
        last_paste_is_read(clipboard, before, k);
    }
}

/// Where nothing was pasted, a clipboard stays as it is.
pub proof fn clipboard_changes_by_paste_only(
    clipboard: Option<Seq<char>>,
    uses: Seq<ClipboardUse>,
)
    requires
        forall|i: int| 0 <= i < uses.len() ==> !(#[trigger] uses[i] is Paste),
    ensures
        clipboard_after_all(clipboard, uses) == clipboard,
    decreases uses.len(),
{
    if uses.len() > 0 {
        let before = uses.drop_last();
        assert(uses[uses.len() - 1] is Read || uses[uses.len() - 1] is Send);
        assert forall|i: int| 0 <= i < before.len() implies !(#[trigger] before[i] is Paste) by {
            assert(before[i] == uses[i]);
        }
        clipboard_changes_by_paste_only(clipboard, before);
    }
}

/// C code finds the end of a C string where the text ends, and reads the text back from what
/// stands before.
pub proof fn c_string_reads_back(text: Seq<char>)
    requires
        !holds_nul(text),
    ensures
        c_bytes(text).last() == 0,
        forall|i: int| 0 <= i < c_bytes(text).len() - 1 ==> #[trigger] c_bytes(text)[i] != 0,
        vstd::utf8::decode_utf8(c_bytes(text).drop_last()) == text,
{
    let bytes = vstd::utf8::encode_utf8(text);
    assert(c_bytes(text).drop_last() =~= bytes);
    vstd::utf8::encode_utf8_decode_utf8(text);
    assert forall|i: int| 0 <= i < c_bytes(text).len() - 1 implies #[trigger] c_bytes(text)[i]
        != 0 by {
        assert(c_bytes(text)[i] == bytes[i]);
    }
}

} // verus!
