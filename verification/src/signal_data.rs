use vstd::prelude::*;

verus! {

/// Byte order of the 32-bit words that carry a payload on the wire.
#[derive(Clone, Copy, Debug, PartialEq, Eq, Structural)]
pub enum Endian {
    /// Each 32-bit word is sent least significant byte first.
    Little,
    /// Each 32-bit word is sent most significant byte first.
    Big,
}

/// Errors met while taking a signal data payload off the wire.
#[derive(Clone, Copy, Debug, PartialEq, Eq, Structural)]
pub enum PayloadError {
    /// The input ends before the number of bytes the header announces.
    Incomplete {
        /// Bytes the payload needs.
        needed_bytes: usize,
    },
}

/// Number of zero bytes that pad `n` payload bytes out to whole 32-bit words.
pub open spec fn pad_len(n: nat) -> nat {
    if n % 4 == 0 {
        0
    } else {
        (4 - n % 4) as nat
    }
}

/// Number of 32-bit words that `n` payload bytes occupy, the last one padded.
pub open spec fn word_count(n: nat) -> nat {
    (n + 3) / 4
}

/// The payload followed by the zero bytes that complete its last word.
pub open spec fn padded(data: Seq<u8>) -> Seq<u8> {
    data + Seq::new(pad_len(data.len()), |i: int| 0u8)
}

/// Position that byte `i` takes when the bytes of its 32-bit word are reversed.
pub open spec fn swapped_index(i: int) -> int {
    i - i % 4 + (3 - i % 4)
}

/// The bytes of each 32-bit word in reverse order (for a length that is a multiple of 4).
pub open spec fn swap_words(s: Seq<u8>) -> Seq<u8> {
    Seq::new(s.len(), |i: int| s[swapped_index(i)])
}

/// The wire bytes that carry a payload: padded to whole words, and each word
/// byte-reversed when the stream is little endian.
pub open spec fn encode_payload(data: Seq<u8>, endian: Endian) -> Seq<u8> {
    match endian {
        Endian::Big => padded(data),
        Endian::Little => swap_words(padded(data)),
    }
}

/// The payload bytes carried by whole words of wire bytes.
pub open spec fn decode_payload(wire: Seq<u8>, endian: Endian) -> Seq<u8> {
    match endian {
        Endian::Big => wire,
        Endian::Little => swap_words(wire),
    }
}

proof fn lemma_swapped_index(i: int, len: int)
    requires
        0 <= i < len,
        len % 4 == 0,
    ensures
        0 <= swapped_index(i) < len,
        swapped_index(i) % 4 == 3 - i % 4,
        swapped_index(swapped_index(i)) == i,
{
    assert(i - i % 4 == 4 * (i / 4));
    assert(len - len % 4 == 4 * (len / 4));
    assert(i / 4 < len / 4);
}

/// Reversing the bytes of every word twice gives back the original bytes.
pub proof fn lemma_swap_words_involution(s: Seq<u8>)
    requires
        s.len() % 4 == 0,
    ensures
        swap_words(swap_words(s)) == s,
{
    assert forall|i: int| 0 <= i < s.len() implies #[trigger] swap_words(swap_words(s))[i] == s[i] by {
        lemma_swapped_index(i, s.len() as int);
    }
    assert(swap_words(swap_words(s)) =~= s);
}

/// The wire form of a payload fills whole 32-bit words: its length is four
/// times the payload's word count, its first bytes (in stream byte order) are
/// the payload, and the rest are zero.
pub proof fn lemma_encoded_length(data: Seq<u8>, endian: Endian)
    ensures
        encode_payload(data, endian).len() == 4 * word_count(data.len()),
        encode_payload(data, endian).len() % 4 == 0,
        decode_payload(encode_payload(data, endian), endian).take(data.len() as int) == data,
        forall|i: int|
            data.len() <= i < encode_payload(data, endian).len() ==> #[trigger] decode_payload(
                encode_payload(data, endian),
                endian,
            )[i] == 0u8,
{
    lemma_payload_round_trip(data, endian);
    assert(padded(data).take(data.len() as int) =~= data);
}

/// Reading back the wire bytes that `write_payload` produces gives the payload
/// followed by the zero padding of its last word.
pub proof fn lemma_payload_round_trip(data: Seq<u8>, endian: Endian)
    ensures
        decode_payload(encode_payload(data, endian), endian) == padded(data),
        padded(data).len() == 4 * word_count(data.len()),
{
    let n = data.len();
    assert(padded(data).len() == 4 * word_count(n));
    if endian == Endian::Little {
        lemma_swap_words_involution(padded(data));
    }
}

/// Taking the bytes back out of a signal data packet gives the bytes it was
/// made from: those of an owned vector handed to `from_owned`, and those of a
/// packet that was cloned.
pub proof fn lemma_into_payload_gives_back_bytes(
    v: Vec<u8>,
    made: SignalData,
    taken: Vec<u8>,
    original: SignalData,
    copy: SignalData,
    copy_taken: Vec<u8>,
)
    ensures
        call_ensures(SignalData::from_owned, (v,), made) && call_ensures(
            SignalData::into_payload,
            (made,),
            taken,
        ) ==> taken@ == v@,
        call_ensures(SignalData::clone, (&original,), copy) && call_ensures(
            SignalData::into_payload,
            (copy,),
            copy_taken,
        ) ==> copy_taken@ == original@,
{
}

/// Reverse the bytes of each 32-bit word of `s`.
fn swap_word_bytes(s: &[u8]) -> (r: Vec<u8>)
    requires
        s@.len() % 4 == 0,
    ensures
        r@ == swap_words(s@),
{
    let n = s.len();
    let mut r: Vec<u8> = Vec::with_capacity(n);
    let mut i: usize = 0;
    while i < n
        invariant
            n == s@.len(),
            n % 4 == 0,
            i <= n,
            r@ =~= swap_words(s@).take(i as int),
        decreases n - i,
    {
        proof {
            lemma_swapped_index(i as int, n as int);
        }
        let j: usize = i - i % 4 + (3 - i % 4);
        r.push(s[j]);
        i = i + 1;
    }
    r
}


/// Byte containers that a signal data payload can be set from: an owned
/// vector (taken as it is), a byte slice, or a reference to a byte array
/// (both copied).
pub trait PayloadBytes: Sized {
    /// The bytes held.
    spec fn bytes_view(&self) -> Seq<u8>;

    /// The bytes held, as an owned vector.
    fn into_byte_vec(self) -> (r: Vec<u8>)
        ensures
            r@ == self.bytes_view(),
    ;
}

impl PayloadBytes for Vec<u8> {
    open spec fn bytes_view(&self) -> Seq<u8> {
        self@
    }

    fn into_byte_vec(self) -> (r: Vec<u8>) {
        self
    }
}

impl<'a> PayloadBytes for &'a [u8] {
    open spec fn bytes_view(&self) -> Seq<u8> {
        self@
    }

    fn into_byte_vec(self) -> (r: Vec<u8>) {
        vstd::slice::slice_to_vec(self)
    }
}

impl<'a, const N: usize> PayloadBytes for &'a [u8; N] {
    open spec fn bytes_view(&self) -> Seq<u8> {
        self@
    }

    fn into_byte_vec(self) -> (r: Vec<u8>) {
        vstd::slice::slice_to_vec(self.as_slice())
    }
}

/// Base signal data structure: the raw payload bytes of a signal data packet.
#[derive(Debug, PartialEq, Eq, PartialOrd, Ord, Hash)]
pub struct SignalData {
    data: Vec<u8>,
}

impl View for SignalData {
    type V = Seq<u8>;

    closed spec fn view(&self) -> Seq<u8> {
        self.data@
    }
}

impl Clone for SignalData {
    fn clone(&self) -> (r: SignalData)
        ensures
            r@ == self@,
    {
        let data = self.data.clone();
        assert(data@ =~= self.data@);
        SignalData { data }
    }
}

impl Default for SignalData {
    fn default() -> (r: SignalData)
        ensures
            r@ == Seq::<u8>::empty(),
    {
        SignalData { data: Vec::new() }
    }
}

impl SignalData {
    /// Create a new, empty signal data packet.
    pub fn new() -> (r: SignalData)
        ensures
            r@ == Seq::<u8>::empty(),
    {
        SignalData::default()
    }

    /// Create a new signal data packet directly from an owned vector (zero-copy).
    pub fn from_owned(data: Vec<u8>) -> (r: SignalData)
        ensures
            r@ == data@,
    {
        SignalData { data }
    }

    /// Create a new signal data packet from an input slice of bytes.
    /// This allocates a new vector under the hood.
    pub fn from_bytes(bytes: &[u8]) -> (r: SignalData)
        ensures
            r@ == bytes@,
    {
        SignalData { data: vstd::slice::slice_to_vec(bytes) }
    }

    /// Get the data payload as a read-only slice (zero-copy).
    pub fn payload(&self) -> (r: &[u8])
        ensures
            r@ == self@,
    {
        self.data.as_slice()
    }

    /// Get the data payload as a mutable slice (zero-copy), to edit the
    /// payload where it sits.
    pub fn payload_mut(&mut self) -> (r: &mut [u8])
        ensures
            r@ == old(self)@,
            final(self)@ == final(r)@,
    {
        self.data.as_mut_slice()
    }

    /// Consume the struct and take ownership of the underlying payload bytes (zero-copy).
    pub fn into_payload(self) -> (r: Vec<u8>)
        ensures
            r@ == self@,
    {
        self.data
    }

    /// Set the packet payload to some raw bytes.
    /// Accepts either a `Vec<u8>` (zero-copy) or a `&[u8]` slice (allocates).
    pub fn set_payload<B: PayloadBytes>(&mut self, bytes: B)
        ensures
            final(self)@ == bytes.bytes_view(),
    {
        self.data = bytes.into_byte_vec();
    }

    /// Resize the payload and get it back as a mutable slice to fill.
    /// Growing the payload zeroes the new bytes, and shrinking it truncates.
    pub fn resize_payload(&mut self, len: usize) -> (r: &mut [u8])
        ensures
            r@.len() == len,
            len <= old(self)@.len() ==> r@ == old(self)@.take(len as int),
            len > old(self)@.len() ==> r@ == old(self)@ + Seq::new(
                (len - old(self)@.len()) as nat,
                |i: int| 0u8,
            ),
            final(self)@ == final(r)@,
    {
        self.data.resize(len, 0u8);
        self.data.as_mut_slice()
    }

    /// Gets the size of the payload in 32-bit words, counting a partly filled
    /// last word; the count is kept modulo 2^16.
    pub fn size_words(&self) -> (r: u16)
        ensures
            r as int == word_count(self@.len()) % 0x10000,
    {
        let n = self.data.len();
        let words: usize = n / 4 + if n % 4 != 0 { 1 } else { 0 };
        assert(words == word_count(n as nat));
        let r: u16 = #[verifier::truncate] (words as u16);
        assert(r == words % 0x10000) by (bit_vector)
            requires r == #[verifier::truncate] (words as u16);
        r
    }

    /// Gets the size of the payload in bytes.
    pub fn payload_size_bytes(&self) -> (r: usize)
        ensures
            r == self@.len(),
    {
        self.data.len()
    }

    /// Take a payload of `words` 32-bit words off the front of `input`,
    /// restoring the byte order of each word for a little-endian stream.
    pub fn read_payload(input: &[u8], words: usize, endian: Endian) -> (r: Result<Vec<u8>, PayloadError>)
        requires
            words <= usize::MAX / 4,
        ensures
            input@.len() < 4 * words ==> r == Err::<Vec<u8>, PayloadError>(PayloadError::Incomplete { needed_bytes: (4 * words) as usize }),
            input@.len() >= 4 * words ==> (r matches Ok(v) && v@ == decode_payload(input@.take(4 * words), endian)),
    {
        let byte_len = words * 4;
        if input.len() < byte_len {
            return Err(PayloadError::Incomplete { needed_bytes: byte_len });
        }
        let mut data: Vec<u8> = Vec::with_capacity(byte_len);
        let mut i: usize = 0;
        while i < byte_len
            invariant
                byte_len == 4 * words,
                byte_len <= input@.len(),
                i <= byte_len,
                data@ =~= input@.take(i as int),
            decreases byte_len - i,
        {
            data.push(input[i]);
            i = i + 1;
        }
        assert(data@ =~= input@.take(4 * words));
        match endian {
            Endian::Little => Ok(swap_word_bytes(data.as_slice())),
            Endian::Big => Ok(data),
        }
    }

    /// The wire bytes for payload `data`: zero-padded to whole 32-bit words,
    /// with the bytes of each word reversed for a little-endian stream.
    pub fn write_payload(data: &[u8], endian: Endian) -> (r: Vec<u8>)
        requires
            data@.len() + 3 <= usize::MAX,
        ensures
            r@ == encode_payload(data@, endian),
    {
        let remainder = data.len() % 4;
        let pad: usize = if remainder != 0 { 4 - remainder } else { 0 };
        let total = data.len() + pad;
        let mut wire: Vec<u8> = Vec::with_capacity(total);
        let mut i: usize = 0;
        while i < total
            invariant
                total == data@.len() + pad,
                pad == pad_len(data@.len() as nat),
                i <= total,
                wire@ =~= padded(data@).take(i as int),
            decreases total - i,
        {
            if i < data.len() {
                wire.push(data[i]);
            } else {
                wire.push(0u8);
            }
            i = i + 1;
        }
        assert(wire@ =~= padded(data@));
        match endian {
            Endian::Little => swap_word_bytes(wire.as_slice()),
            Endian::Big => wire,
        }
    }
}


/// On a little-endian stream the wire holds whole 32-bit words, each holding
/// the corresponding word of the payload (zero-padded) with its bytes in
/// reverse order; fewer than four padding bytes are added.
pub proof fn lemma_write_little_endian_reverses_each_word(data: &[u8], wire: Vec<u8>)
    ensures
        call_ensures(SignalData::write_payload, (data, Endian::Little), wire) ==> {
            &&& wire@.len() % 4 == 0
            &&& data@.len() <= wire@.len() < data@.len() + 4
            &&& forall|i: int|
                0 <= i < wire@.len() ==> #[trigger] wire@[i] == if i - i % 4 + 3 - i % 4
                    < data@.len() {
                    data@[i - i % 4 + 3 - i % 4]
                } else {
                    0u8
                }
        },
{
    if call_ensures(SignalData::write_payload, (data, Endian::Little), wire) {
        let p = padded(data@);
        assert(wire@ == swap_words(p));
        assert forall|i: int| 0 <= i < wire@.len() implies #[trigger] wire@[i] == if i - i % 4 + 3
            - i % 4 < data@.len() {
            data@[i - i % 4 + 3 - i % 4]
        } else {
            0u8
        } by {
            lemma_swapped_index(i, p.len() as int);
        }
    }
}

/// On a big-endian stream the wire is the payload itself followed by fewer
/// than four zero bytes, making whole 32-bit words.
pub proof fn lemma_write_big_endian_pads_with_zeros(data: &[u8], wire: Vec<u8>)
    ensures
        call_ensures(SignalData::write_payload, (data, Endian::Big), wire) ==> {
            &&& wire@.len() % 4 == 0
            &&& data@.len() <= wire@.len() < data@.len() + 4
            &&& forall|i: int|
                0 <= i < wire@.len() ==> #[trigger] wire@[i] == if i < data@.len() {
                    data@[i]
                } else {
                    0u8
                }
        },
{
}

/// Reading `words` words off a stream succeeds exactly when the input holds
/// `4 * words` bytes; the payload is those bytes, each 32-bit word byte-reversed
/// on a little-endian stream and kept as it is on a big-endian one.
pub proof fn lemma_read_takes_the_announced_words(
    input: &[u8],
    words: usize,
    endian: Endian,
    r: Result<Vec<u8>, PayloadError>,
)
    requires
        words <= usize::MAX / 4,
    ensures
        call_ensures(SignalData::read_payload, (input, words, endian), r) ==> {
            &&& (r is Ok <==> 4 * words <= input@.len())
            &&& r matches Ok(v) ==> {
                &&& v@.len() == 4 * words
                &&& forall|i: int|
                    0 <= i < v@.len() ==> #[trigger] v@[i] == if endian == Endian::Little {
                        input@[i - i % 4 + 3 - i % 4]
                    } else {
                        input@[i]
                    }
            }
        },
{
    if call_ensures(SignalData::read_payload, (input, words, endian), r) {
        if let Ok(v) = r {
            let w = input@.take(4 * words);
            assert forall|i: int| 0 <= i < v@.len() implies #[trigger] v@[i] == if endian
                == Endian::Little {
                input@[i - i % 4 + 3 - i % 4]
            } else {
                input@[i]
            } by {
                lemma_swapped_index(i, w.len() as int);
            }
        }
    }
}

/// The word count of a payload is its byte count divided by four and rounded
/// up, kept modulo 2^16: four times the count exceeds the byte count by fewer
/// than four bytes (modulo 2^18), and, while the count fits in 16 bits, by
/// none for whole words.
pub proof fn lemma_size_words_rounds_up(s: SignalData, r: u16)
    ensures
        call_ensures(SignalData::size_words, (&s,), r) ==> {
            &&& (4 * r - s@.len()) % 0x40000 < 4
            &&& s@.len() <= 4 * 0xffff ==> s@.len() <= 4 * r < s@.len() + 4
            &&& s@.len() % 4 == 0 && s@.len() <= 4 * 0xffff ==> 4 * r == s@.len()
        },
{
    if call_ensures(SignalData::size_words, (&s,), r) {
        let n = s@.len() as int;
        let q = (n + 3) / 4;
        let k = q / 0x10000;
        assert(0 <= 4 * q - n < 4);
        assert(r == q % 0x10000);
        assert(q == 0x10000 * k + q % 0x10000);
        assert(4 * r - n == 0x40000 * (-k) + (4 * q - n));
        vstd::arithmetic::div_mod::lemma_mod_multiples_vanish(-k, 4 * q - n, 0x40000);
        if n <= 4 * 0xffff {
            assert(q < 0x10000);
            vstd::arithmetic::div_mod::lemma_small_mod(q as nat, 0x10000);
        }
        vstd::arithmetic::div_mod::lemma_small_mod((4 * q - n) as nat, 0x40000);
    }
}

/// The bytes a payload is set from are exactly the vector's, the slice's, or
/// the array's: nothing is dropped, added, or reordered.
pub proof fn lemma_payload_bytes_are_the_given_bytes<const N: usize>(
    v: Vec<u8>,
    s: &[u8],
    a: &[u8; N],
    rv: Vec<u8>,
    rs: Vec<u8>,
    ra: Vec<u8>,
)
    ensures
        v.bytes_view() == v@,
        s.bytes_view() == s@,
        a.bytes_view() == a@,
        call_ensures(<Vec<u8> as PayloadBytes>::into_byte_vec, (v,), rv) ==> rv@ == v@,
        call_ensures(<&[u8] as PayloadBytes>::into_byte_vec, (s,), rs) ==> rs@ == s@,
        call_ensures(<&[u8; N] as PayloadBytes>::into_byte_vec, (a,), ra) ==> ra@ == a@,
{
}

} // verus!
