//! Echo of the `User-Agent` request header.
use crate::text::{ascii_chars, push_ascii};
use vstd::prelude::*;

verus! {

/// One header of a request: its name, in lower case as the server stores it,
/// and its raw value. A request's headers keep the order in which the server
/// lists them, the values of one name in the order they came.
#[derive(Debug, PartialEq, Eq)]
pub struct HeaderEntry {
    pub name: Vec<u8>,
    pub value: Vec<u8>,
}

/// `user-agent`
pub open spec fn user_agent_name() -> Seq<u8> {
    seq![117u8, 115u8, 101u8, 114u8, 45u8, 97u8, 103u8, 101u8, 110u8, 116u8]
}

/// Whether `i` is the position of the first header named `name`.
pub open spec fn is_first(headers: Seq<HeaderEntry>, name: Seq<u8>, i: int) -> bool {
    &&& 0 <= i < headers.len()
    &&& headers[i].name@ == name
    &&& forall|j: int| 0 <= j < i ==> (#[trigger] headers[j]).name@ != name
}

/// The value of the first header named `name`, if there is one.
pub open spec fn header_value(headers: Seq<HeaderEntry>, name: Seq<u8>) -> Option<Seq<u8>> {
    if exists|i: int| is_first(headers, name, i) {
        Some(headers[choose|i: int| is_first(headers, name, i)].value@)
    } else {
        None
    }
}

/// Whether a header value byte may be read as text: a visible ASCII
/// character, the space, or the tab.
pub open spec fn is_visible_ascii(b: u8) -> bool {
    (32 <= b && b < 127) || b == 9
}

/// Whether a header value can be read as text.
pub open spec fn is_text(value: Seq<u8>) -> bool {
    forall|k: int| 0 <= k < value.len() ==> is_visible_ascii(#[trigger] value[k])
}

fn same_bytes(a: &[u8], b: &[u8]) -> (same: bool)
    ensures
        same == (a@ == b@),
{
    if a.len() != b.len() {
        return false;
    }
    let n = a.len();
    let mut i: usize = 0;
    while i < n
        invariant
            n == a@.len(),
            n == b@.len(),
            i <= n,
            forall|k: int| 0 <= k < i ==> a@[k] == b@[k],
        decreases n - i,
    {
        if a[i] != b[i] {
            return false;
        }
        i = i + 1;
    }
    assert(a@ =~= b@);
    true
}

/// The position of the first header named `name`, if any.
pub fn find_header(headers: &Vec<HeaderEntry>, name: &[u8]) -> (found: Option<usize>)
    ensures
        match found {
            Some(i) => is_first(headers@, name@, i as int),
            None => forall|j: int| 0 <= j < headers@.len() ==> (#[trigger] headers@[j]).name@ != name@,
        },
{
    let n = headers.len();
    let mut i: usize = 0;
    while i < n
        invariant
            n == headers@.len(),
            i <= n,
            forall|j: int| 0 <= j < i ==> (#[trigger] headers@[j]).name@ != name@,
        decreases n - i,
    {
        if same_bytes(headers[i].name.as_slice(), name) {
            return Some(i);
        }
        i = i + 1;
    }
    None
}

/// The value of the first header named `name`, if any.
pub fn get_header<'a>(headers: &'a Vec<HeaderEntry>, name: &[u8]) -> (value: Option<&'a Vec<u8>>)
    ensures
        match value {
            Some(v) => header_value(headers@, name@) == Some(v@),
            None => header_value(headers@, name@) is None,
        },
{
    match find_header(headers, name) {
        Some(i) => {
            proof {
                let k = choose|k: int| is_first(headers@, name@, k);
                if k < i {
                    assert(headers@[k].name@ != name@);
                } else if k > i {
                    assert(headers@[i as int].name@ != name@);
                }
            }
            Some(&headers[i].value)
        },
        None => {
            assert forall|i: int| !is_first(headers@, name@, i) by {
                if 0 <= i < headers@.len() {
                    assert(headers@[i].name@ != name@);
                }
            }
            None
        },
    }
}

/// A header value as text, if it can be read as text.
pub fn header_text(value: &[u8]) -> (text: Option<String>)
    ensures
        text is Some <==> is_text(value@),
        text matches Some(t) ==> t@ == ascii_chars(value@),
{
    let n = value.len();
    let mut i: usize = 0;
    while i < n
        invariant
            n == value@.len(),
            i <= n,
            forall|k: int| 0 <= k < i ==> is_visible_ascii(#[trigger] value@[k]),
        decreases n - i,
    {
        let b = value[i];
        if !((32 <= b && b < 127) || b == 9) {
            assert(!is_visible_ascii(value@[i as int]));
            return None;
        }
        i = i + 1;
    }
    let mut text = String::new();
    push_ascii(&mut text, value);
    Some(text)
}

/// The `User-Agent` header of a request, as text. The handler panics when the
/// header is missing or is not text; those requests are left out.
pub fn miror_agent(headers: &Vec<HeaderEntry>) -> (agent: String)
    requires
        header_value(headers@, user_agent_name()) matches Some(v) && is_text(v),
    ensures
        header_value(headers@, user_agent_name()) matches Some(v) && agent@ == ascii_chars(v),
{
    let name: Vec<u8> = vec![117u8, 115u8, 101u8, 114u8, 45u8, 97u8, 103u8, 101u8, 110u8, 116u8];
    assert(name@ =~= user_agent_name());
    match get_header(headers, name.as_slice()) {
        Some(value) => match header_text(value.as_slice()) {
            Some(text) => text,
            None => {
                assert(false);
                String::new()
            },
        },
        None => {
            assert(false);
            String::new()
        },
    }
}

/// A header value is text exactly when each of its bytes is a visible ASCII
/// character (0x20 to 0x7E, the space among them) or the tab: every byte of a
/// browser's `User-Agent` qualifies, and a control character, DEL or a byte
/// above 0x7F does not.
pub proof fn text_is_visible_ascii_or_tab(value: Seq<u8>)
    ensures
        is_text(value) <==> forall|k: int|
            0 <= k < value.len() ==> (32 <= #[trigger] value[k] <= 126 || value[k] == 9),
{
}

/// The value of a header is that of the first header with its name, in the
/// order the request lists them; there is none when no header has the name.
pub proof fn first_header_is_read(headers: Seq<HeaderEntry>, name: Seq<u8>, i: int)
    ensures
        (0 <= i < headers.len() && headers[i].name@ == name && forall|j: int|
            0 <= j < i ==> (#[trigger] headers[j]).name@ != name) ==> header_value(headers, name)
            == Some(headers[i].value@),
        (forall|j: int| 0 <= j < headers.len() ==> (#[trigger] headers[j]).name@ != name)
            ==> header_value(headers, name) is None,
{
    if 0 <= i < headers.len() && headers[i].name@ == name && forall|j: int|
        0 <= j < i ==> (#[trigger] headers[j]).name@ != name {
        assert(is_first(headers, name, i));
        let k = choose|k: int| is_first(headers, name, k);
        if k < i {
            assert(headers[k].name@ != name);
        } else if k > i {
            assert(headers[i].name@ != name);
        }
    }
}

} // verus!
