//! The context tag: a label cut down to the four ASCII bytes under which
//! the engine groups records.

use vstd::prelude::*;
use vstd::string::StringSliceAdditionalSpecFns;

verus! {

/// The number of bytes of a label that reach the engine.
pub const CONTEXT_CAPACITY: usize = 4;

/// What was found where ASCII is required.
#[derive(Clone, Copy, Debug, PartialEq, Eq, Structural, Hash)]
pub enum NonAscii {
    /// A context label holds a character outside ASCII.
    Context,
    /// A string value holds a character outside ASCII.
    Text,
}

/// The bytes of a label that the engine gets to see: all of them up to
/// four, the first four of a longer label.
pub open spec fn tag_of(label: Seq<u8>) -> Seq<u8> {
    if label.len() <= 4 {
        label
    } else {
        label.take(4)
    }
}

/// A tag in its fixed buffer: the tag's bytes, then zeros up to four bytes.
pub open spec fn zero_padded(tag: Seq<u8>) -> Seq<u8> {
    Seq::new(
        4,
        |i: int|
            if i < tag.len() {
                tag[i]
            } else {
                0u8
            },
    )
}

/// All bytes are ASCII.
pub open spec fn is_ascii_bytes(bytes: Seq<u8>) -> bool {
    forall|i: int| 0 <= i < bytes.len() ==> #[trigger] bytes[i] < 128
}

/// An encoded context: a buffer of four bytes and the number of them in
/// use. It is made once and never changes.
///
/// Its view is the tag itself, that is the bytes in use.
#[derive(Clone, Copy, Debug, PartialEq, Eq, Hash)]
pub struct Context {
    data: [u8; 4],
    size: usize,
}

impl View for Context {
    type V = Seq<u8>;

    closed spec fn view(&self) -> Seq<u8> {
        self.data@.take(self.size as int)
    }
}

impl Context {
    /// At most four bytes are in use, all are ASCII, and the rest of the
    /// buffer is zero.
    #[verifier::type_invariant]
    pub closed spec fn wf(self) -> bool {
        &&& self.size <= 4
        &&& forall|i: int|
            0 <= i < 4 ==> #[trigger] self.data@[i] < 128 && (i >= self.size ==> self.data@[i]
                == 0)
    }

    /// The whole buffer.
    pub closed spec fn spec_data(self) -> Seq<u8> {
        self.data@
    }

    /// Encodes an ASCII label.
    ///
    /// A label of up to four bytes is kept whole; of a longer one the
    /// first four bytes are kept and the rest is dropped. Labels with the
    /// same first four bytes therefore give the same context.
    pub fn from(context: &str) -> (encoded: Context)
        requires
            context.is_ascii(),
        ensures
            encoded.wf(),
            encoded@ == tag_of(context.spec_bytes()),
            encoded.spec_data() == zero_padded(encoded@),
    {
        broadcast use vstd::string::is_ascii_spec_bytes;
        broadcast use vstd::utf8::is_ascii_chars_nat_bound;

        let bytes = context.as_bytes();
        let size: usize = if bytes.len() < CONTEXT_CAPACITY {
            bytes.len()
        } else {
            CONTEXT_CAPACITY
        };
        let mut data: [u8; 4] = [0u8;4];
        let mut i: usize = 0;
        while i < size
            invariant
                i <= size <= 4,
                size <= bytes@.len(),
                bytes@ == context.spec_bytes(),
                is_ascii_bytes(bytes@),
                forall|j: int| 0 <= j < i ==> data@[j] == bytes@[j],
                forall|j: int| i <= j < 4 ==> data@[j] == 0,
            decreases size - i,
        {
            data[i] = bytes[i];
            i += 1;
        }
        let encoded = Context { data, size };
        assert(encoded@ =~= tag_of(context.spec_bytes()));
        assert(encoded.spec_data() =~= zero_padded(encoded@));
        encoded
    }

    /// Encodes a label, or refuses it.
    ///
    /// A label with a character outside ASCII is refused as a whole: no
    /// part of it is encoded.
    pub fn encode(label: &str) -> (encoded: Result<Context, NonAscii>)
        ensures
            encoded is Ok <==> label.is_ascii(),
            encoded matches Ok(c) ==> c.wf() && c@ == tag_of(label.spec_bytes()) && c.spec_data()
                == zero_padded(c@),
            encoded matches Err(e) ==> e == NonAscii::Context,
    {
        if label.is_ascii() {
            Ok(Context::from(label))
        } else {
            Err(NonAscii::Context)
        }
    }

    /// The four bytes of the buffer: the tag, padded with zeros.
    pub fn data(&self) -> (data: [u8; 4])
        ensures
            data@ == zero_padded(self@),
            data@ == self.spec_data(),
    {
        proof {
            use_type_invariant(self);
            assert(self.data@ =~= zero_padded(self@));
        }
        self.data
    }

    /// The number of bytes in use.
    pub fn size(&self) -> (size: usize)
        ensures
            size == self@.len(),
            size <= 4,
    {
        proof {
            use_type_invariant(self);
        }
        self.size
    }
}

/// A well-formed context is a tag of at most four ASCII bytes in a buffer
/// of four, padded with zeros.
pub proof fn lemma_context_shape(context: Context)
    requires
        context.wf(),
    ensures
        context@.len() <= 4,
        is_ascii_bytes(context@),
        context.spec_data() == zero_padded(context@),
{
    assert(context.spec_data() =~= zero_padded(context@));
}

/// A tag is a prefix of its label: as long as the label up to four bytes,
/// and byte for byte what the label starts with.
pub proof fn lemma_tag_is_prefix(label: Seq<u8>)
    ensures
        tag_of(label).len() == if label.len() <= 4 {
            label.len()
        } else {
            4
        },
        forall|i: int| 0 <= i < tag_of(label).len() ==> tag_of(label)[i] == label[i],
        label.len() <= 4 ==> tag_of(label) == label,
{
}

/// Two labels that agree on their first four bytes have the same tag,
/// whatever follows.
pub proof fn lemma_tag_ignores_tail(first: Seq<u8>, second: Seq<u8>)
    requires
        first.len() >= 4,
        second.len() >= 4,
        forall|i: int| 0 <= i < 4 ==> first[i] == second[i],
    ensures
        tag_of(first) == tag_of(second),
{
    assert(tag_of(first) =~= tag_of(second));
}

} // verus!
