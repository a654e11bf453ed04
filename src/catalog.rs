use vstd::prelude::*;
use vstd::string::StringExecFns;

verus! {

/// What `String::from_utf8_lossy` makes of a byte sequence.
pub uninterp spec fn utf8_lossy(b: Seq<u8>) -> Seq<char>;

/// Relies on `String::from_utf8_lossy`: the text depends on the bytes alone;
/// invalid sequences become U+FFFD.
#[verifier::external_body]
fn lossy_text(b: &[u8]) -> (r: String)
    ensures
        r@ == utf8_lossy(b@),
{
    String::from_utf8_lossy(b).into_owned()
}

/// Length of the text held in a NUL-terminated field: the bytes before the
/// first zero, or all of them where there is none.
pub open spec fn c_str_len(b: Seq<u8>) -> nat
    decreases b.len(),
{
    if b.len() == 0 {
        0
    } else if b[0] == 0 {
        0
    } else {
        1 + c_str_len(b.drop_first())
    }
}

/// The bytes of a NUL-terminated field before its terminator.
pub open spec fn c_str(b: Seq<u8>) -> Seq<u8> {
    b.subrange(0, c_str_len(b) as int)
}

proof fn lemma_c_str_len_step(b: Seq<u8>, i: int)
    requires
        0 <= i < b.len(),
        b[i] != 0,
    ensures
        c_str_len(b.subrange(i, b.len() as int)) == 1 + c_str_len(b.subrange(i + 1, b.len() as int)),
{
    assert(b.subrange(i, b.len() as int).drop_first() =~= b.subrange(i + 1, b.len() as int));
}

proof fn lemma_c_str_len_bound(b: Seq<u8>)
    ensures
        c_str_len(b) <= b.len(),
    decreases b.len(),
{
    if b.len() > 0 && b[0] != 0 {
        lemma_c_str_len_bound(b.drop_first());
    }
}

/// Index of the first zero byte of `b`, or its length.
pub fn c_text_len(b: &[u8]) -> (n: usize)
    ensures
        n == c_str_len(b@),
{
    let mut i: usize = 0;
    assert(b@.subrange(0, b@.len() as int) =~= b@);
    while i < b.len()
        invariant
            i <= b@.len(),
            c_str_len(b@) == i + c_str_len(b@.subrange(i as int, b@.len() as int)),
        decreases b@.len() - i,
    {
        if b[i] == 0 {
            assert(c_str_len(b@.subrange(i as int, b@.len() as int)) == 0);
            return i;
        }
        proof {
            lemma_c_str_len_step(b@, i as int);
        }
        i = i + 1;
    }
    assert(b@.subrange(i as int, b@.len() as int).len() == 0);
    i
}

/// The text of a fixed-size, NUL-terminated character field.
pub fn c_field_text(b: &[u8]) -> (r: String)
    ensures
        r@ == utf8_lossy(c_str(b@)),
{
    let n = c_text_len(b);
    proof {
        lemma_c_str_len_bound(b@);
    }
    let mut text: Vec<u8> = Vec::with_capacity(n);
    let mut k: usize = 0;
    while k < n
        invariant
            k <= n,
            n == c_str_len(b@),
            n <= b@.len(),
            text@ == b@.subrange(0, k as int),
        decreases n - k,
    {
        text.push(b[k]);
        k = k + 1;
    }
    lossy_text(text.as_slice())
}

/// A device descriptor as the transport hands it over: its character fields
/// are fixed-size, NUL-terminated byte arrays.
#[derive(Clone, Debug)]
pub struct RawDevInfo {
    pub backend: u32,
    pub serial: Vec<u8>,
    pub usb_bus: u8,
    pub usb_addr: u8,
    pub instance: u32,
    pub manufacturer: Vec<u8>,
    pub product: Vec<u8>,
}

/// An immutable snapshot of one discovered device.
#[derive(Clone, Debug)]
pub struct BladeRfDevInfo {
    pub backend: u32,
    /// The stable key by which the device is opened.
    pub serial: String,
    pub usb_bus: u8,
    pub usb_addr: u8,
    pub instance: u32,
    pub manufacturer: String,
    pub product: String,
}

/// `d` is the descriptor that `raw` encodes.
pub open spec fn describes(d: BladeRfDevInfo, raw: RawDevInfo) -> bool {
    &&& d.backend == raw.backend
    &&& d.serial@ == utf8_lossy(c_str(raw.serial@))
    &&& d.usb_bus == raw.usb_bus
    &&& d.usb_addr == raw.usb_addr
    &&& d.instance == raw.instance
    &&& d.manufacturer@ == utf8_lossy(c_str(raw.manufacturer@))
    &&& d.product@ == utf8_lossy(c_str(raw.product@))
}

impl BladeRfDevInfo {
    /// Decodes a descriptor handed over by the transport.
    pub fn from(raw: &RawDevInfo) -> (r: BladeRfDevInfo)
        ensures
            describes(r, *raw),
    {
        BladeRfDevInfo {
            backend: raw.backend,
            serial: c_field_text(raw.serial.as_slice()),
            usb_bus: raw.usb_bus,
            usb_addr: raw.usb_addr,
            instance: raw.instance,
            manufacturer: c_field_text(raw.manufacturer.as_slice()),
            product: c_field_text(raw.product.as_slice()),
        }
    }
}

/// What to do with the answer of the transport's enumeration call.
#[derive(Clone, Copy, Debug, PartialEq, Eq, Structural)]
pub struct EnumerationPlan {
    /// How many records of the returned list to copy out.
    pub copy: usize,
    /// Whether the returned list must be handed back to the transport.
    pub free_list: bool,
}

/// Number of records worth reading from an enumeration that returned
/// `status` and a list that is present or null.
pub open spec fn listed_count(status: i32, list_present: bool) -> int {
    if status > 0 && list_present {
        status as int
    } else {
        0
    }
}

/// Decides how an enumeration answer is read: a non-positive count or a null
/// list gives no records, and a list that is present is always freed, after
/// the records are copied.
pub fn enumeration_plan(status: i32, list_present: bool) -> (r: EnumerationPlan)
    ensures
        r.copy as int == listed_count(status, list_present),
        r.free_list == list_present,
{
    let copy: usize = if status > 0 && list_present {
        status as usize
    } else {
        0
    };
    EnumerationPlan { copy, free_list: list_present }
}

/// Decodes the records copied out of an enumeration, in order.
pub fn collect_devices(raw: &[RawDevInfo]) -> (r: Vec<BladeRfDevInfo>)
    ensures
        r@.len() == raw@.len(),
        forall|i: int| 0 <= i < raw@.len() ==> describes(#[trigger] r@[i], raw@[i]),
{
    let mut r: Vec<BladeRfDevInfo> = Vec::with_capacity(raw.len());
    let mut k: usize = 0;
    while k < raw.len()
        invariant
            k <= raw@.len(),
            r@.len() == k,
            forall|i: int| 0 <= i < k ==> describes(#[trigger] r@[i], raw@[i]),
        decreases raw@.len() - k,
    {
        r.push(BladeRfDevInfo::from(&raw[k]));
        k = k + 1;
    }
    r
}

/// The characters that open every device selector.
pub open spec fn selector_prefix() -> Seq<char> {
    seq!['*', ':', 's', 'e', 'r', 'i', 'a', 'l', '=']
}

/// The selector that picks the device with this serial on any backend:
/// `*:serial=<serial>`.
pub fn device_selector(serial: &str) -> (r: String)
    ensures
        r@ == selector_prefix() + serial@,
{
    let prefix = String::from_str("*:serial=");
    proof {
        reveal_strlit("*:serial=");
        assert(prefix@ =~= selector_prefix());
    }
    prefix.concat(serial)
}

} // verus!
