//! What a user submits: text with annotated byte ranges, and images.
//!
//! Text elements point into the UTF-8 bytes of the text they belong to. When
//! several texts are joined into one message, each element is moved by the
//! number of bytes that came before its text, so that it keeps pointing at the
//! same bytes.
use vstd::prelude::*;
use vstd::string::StringSliceAdditionalSpecFns;
use vstd::utf8::*;

verus! {

broadcast use {encode_utf8_valid_utf8, encode_utf8_decode_utf8, is_char_boundary_iff_not_is_continuation_byte, is_char_boundary_start_end_of_seq};

/// A half-open range of byte offsets, `start..end`.
#[derive(Clone, Copy, Debug, PartialEq, Eq, Structural)]
pub struct ByteRange {
    pub start: usize,
    pub end: usize,
}

/// A marked span of a text (an attachment or a mention), with an optional
/// replacement text shown in its place.
#[derive(Debug, PartialEq, Eq)]
pub struct TextElement {
    pub byte_range: ByteRange,
    pub placeholder: Option<String>,
}

impl View for TextElement {
    type V = (ByteRange, Option<Seq<char>>);

    open spec fn view(&self) -> (ByteRange, Option<Seq<char>>) {
        (self.byte_range, self.placeholder.deep_view())
    }
}

impl Clone for TextElement {
    fn clone(&self) -> (r: Self)
        ensures
            r == *self,
    {
        let placeholder = match &self.placeholder {
            Some(p) => Some(p.clone()),
            None => None,
        };
        TextElement { byte_range: self.byte_range, placeholder }
    }
}

/// The number of bytes of the UTF-8 encoding of `s`.
pub open spec fn utf8_len(s: Seq<char>) -> nat {
    encode_utf8(s).len()
}

/// The text that the byte range `range` of `text` holds, when both ends of the
/// range fall on character boundaries and the range is not reversed.
pub open spec fn text_slice(text: Seq<char>, range: ByteRange) -> Option<Seq<char>> {
    let bytes = encode_utf8(text);
    if range.start <= range.end && is_char_boundary(bytes, range.start as int) && is_char_boundary(
        bytes,
        range.end as int,
    ) {
        Some(decode_utf8(bytes.subrange(range.start as int, range.end as int)))
    } else {
        None
    }
}

/// The placeholder of an element of `text`: its own, or else the text its range covers.
pub open spec fn element_placeholder(e: TextElement, text: Seq<char>) -> Option<Seq<char>> {
    match e.placeholder {
        Some(p) => Some(p@),
        None => text_slice(text, e.byte_range),
    }
}

/// The view of an optional string slice.
pub open spec fn str_option_view(s: Option<&str>) -> Option<Seq<char>> {
    match s {
        Some(t) => Some(t@),
        None => None,
    }
}

/// The UTF-8 encoding of a concatenation is the concatenation of the encodings.
pub proof fn lemma_encode_utf8_concat(a: Seq<char>, b: Seq<char>)
    ensures
        encode_utf8(a + b) == encode_utf8(a) + encode_utf8(b),
    decreases a.len(),
{
    if a.len() == 0 {
        assert(a + b =~= b);
    } else {
        assert((a + b).drop_first() =~= a.drop_first() + b);
        lemma_encode_utf8_concat(a.drop_first(), b);
        assert(encode_utf8(a + b) =~= encode_utf8(a) + encode_utf8(b));
    }
}

proof fn lemma_prefix_boundary(bytes: Seq<u8>, start: int, end: int)
    requires
        valid_utf8(bytes),
        0 <= start <= end,
        is_char_boundary(bytes, start),
        is_char_boundary(bytes, end),
    ensures
        end <= bytes.len(),
        valid_utf8(bytes.subrange(0, end)),
        is_char_boundary(bytes.subrange(0, end), start),
{
    broadcast use valid_utf8_split;

    let head = bytes.subrange(0, end);
    assert(valid_utf8(head));
    if start < end {
        assert(head[start] == bytes[start]);
        is_char_boundary_iff_not_is_continuation_byte(bytes, start);
        is_char_boundary_iff_not_is_continuation_byte(head, start);
    } else {
        is_char_boundary_start_end_of_seq(head);
    }
}

/// The part of `text` that the byte range `range` covers, when its ends are
/// character boundaries and it is not reversed.
pub fn text_get<'a>(text: &'a str, range: ByteRange) -> (r: Option<&'a str>)
    ensures
        str_option_view(r) == text_slice(text@, range),
        r matches Some(s) ==> s.spec_bytes() == text.spec_bytes().subrange(
            range.start as int,
            range.end as int,
        ),
{
    let start = range.start;
    let end = range.end;
    if start > end {
        return None;
    }
    if !text.is_char_boundary(start) {
        return None;
    }
    if !text.is_char_boundary(end) {
        return None;
    }
    proof {
        lemma_prefix_boundary(text.spec_bytes(), start as int, end as int);
    }
    let (head, _) = text.split_at(end);
    let (_, mid) = head.split_at(start);
    proof {
        assert(mid.spec_bytes() =~= text.spec_bytes().subrange(start as int, end as int));
        assert(decode_utf8(encode_utf8(mid@)) == mid@);
    }
    Some(mid)
}

impl TextElement {
    /// An element covering `byte_range`, with the given placeholder.
    pub fn new(byte_range: ByteRange, placeholder: Option<String>) -> (e: Self)
        ensures
            e.byte_range == byte_range,
            e.placeholder == placeholder,
    {
        TextElement { byte_range, placeholder }
    }

    /// The placeholder shown for this element of `text`: the stored one, or else
    /// the part of `text` that the element's range covers.
    pub fn placeholder<'a>(&'a self, text: &'a str) -> (r: Option<&'a str>)
        ensures
            str_option_view(r) == element_placeholder(*self, text@),
    {
        match &self.placeholder {
            Some(p) => Some(p.as_str()),
            None => text_get(text, self.byte_range),
        }
    }
}

/// An element moved `offset` bytes further into a text.
pub open spec fn rebase_view(e: (ByteRange, Option<Seq<char>>), offset: nat) -> (
    ByteRange,
    Option<Seq<char>>,
) {
    (ByteRange { start: (e.0.start + offset) as usize, end: (e.0.end + offset) as usize }, e.1)
}

/// Whether every element of `elements` can be moved `offset` bytes further
/// without its range overflowing.
pub open spec fn rebase_fits(elements: Seq<TextElement>, offset: nat) -> bool {
    forall|i: int|
        0 <= i < elements.len() ==> #[trigger] elements[i].byte_range.start + offset <= usize::MAX
            && elements[i].byte_range.end + offset <= usize::MAX
}

/// The views of a sequence of elements.
pub open spec fn elements_view(elements: Seq<TextElement>) -> Seq<(ByteRange, Option<Seq<char>>)> {
    elements.map_values(|e: TextElement| e@)
}

/// Appends `text` to `target_text`, and appends its `text_elements` to
/// `target_text_elements`, each moved by the byte length that `target_text`
/// had before, so that it keeps covering the same bytes of the joined text.
pub fn append_text_with_rebased_elements(
    target_text: &mut String,
    target_text_elements: &mut Vec<TextElement>,
    text: &str,
    text_elements: Vec<TextElement>,
)
    requires
        utf8_len(old(target_text)@) <= usize::MAX,
        rebase_fits(text_elements@, utf8_len(old(target_text)@)),
    ensures
        final(target_text)@ == old(target_text)@ + text@,
        elements_view(final(target_text_elements)@) == elements_view(old(target_text_elements)@)
            + elements_view(text_elements@).map_values(
            |e: (ByteRange, Option<Seq<char>>)| rebase_view(e, utf8_len(old(target_text)@)),
        ),
{
    let offset = target_text.as_str().len();
    let ghost old_elements = target_text_elements@;
    let ghost off = utf8_len(old(target_text)@);
    target_text.append(text);
    let n = text_elements.len();
    let mut i: usize = 0;
    while i < n
        invariant
            n == text_elements@.len(),
            0 <= i <= n,
            offset == off,
            rebase_fits(text_elements@, off),
            elements_view(target_text_elements@) == elements_view(old_elements)
                + elements_view(text_elements@.take(i as int)).map_values(
                |e: (ByteRange, Option<Seq<char>>)| rebase_view(e, off),
            ),
        decreases n - i,
    {
        let element = text_elements[i].clone();
        assert(text_elements@[i as int].byte_range.start + off <= usize::MAX);
        let moved = TextElement {
            byte_range: ByteRange {
                start: element.byte_range.start + offset,
                end: element.byte_range.end + offset,
            },
            placeholder: element.placeholder,
        };
        let ghost before = target_text_elements@;
        target_text_elements.push(moved);
        proof {
            assert(text_elements@.take(i + 1) =~= text_elements@.take(i as int).push(
                text_elements@[i as int],
            ));
            assert(elements_view(target_text_elements@) =~= elements_view(before).push(moved@));
            assert(elements_view(text_elements@.take(i + 1)) =~= elements_view(
                text_elements@.take(i as int),
            ).push(text_elements@[i as int]@));
            assert(moved@ == rebase_view(text_elements@[i as int]@, off));
            assert(elements_view(target_text_elements@) =~= elements_view(old_elements)
                + elements_view(text_elements@.take(i + 1)).map_values(
                |e: (ByteRange, Option<Seq<char>>)| rebase_view(e, off),
            ));
        }
        i = i + 1;
    }
    proof {
        assert(text_elements@.take(n as int) =~= text_elements@);
    }
}

/// An element appended by `append_text_with_rebased_elements` covers, in the
/// joined text, the same bytes that it covered in its own text.
pub proof fn lemma_rebased_element_covers_same_bytes(
    before: Seq<char>,
    text: Seq<char>,
    range: ByteRange,
)
    requires
        range.start <= range.end <= utf8_len(text),
        range.end + utf8_len(before) <= usize::MAX,
    ensures
        ({
            let moved = rebase_view((range, None), utf8_len(before)).0;
            encode_utf8(before + text).subrange(moved.start as int, moved.end as int)
                == encode_utf8(text).subrange(range.start as int, range.end as int)
        }),
{
    lemma_encode_utf8_concat(before, text);
    let off = utf8_len(before);
    assert(encode_utf8(before + text).subrange(range.start + off, range.end + off) =~= encode_utf8(
        text,
    ).subrange(range.start as int, range.end as int));
}

/// Appending more text to a message leaves the bytes it already had in place, so
/// ranges into the message keep covering the same bytes.
pub proof fn lemma_append_keeps_earlier_bytes(message: Seq<char>, more: Seq<char>, range: ByteRange)
    requires
        range.start <= range.end <= utf8_len(message),
    ensures
        encode_utf8(message + more).subrange(range.start as int, range.end as int) == encode_utf8(
            message,
        ).subrange(range.start as int, range.end as int),
{
    lemma_encode_utf8_concat(message, more);
    assert(encode_utf8(message + more).subrange(range.start as int, range.end as int)
        =~= encode_utf8(message).subrange(range.start as int, range.end as int));
}

/// One piece of user input.
pub enum UserInput {
    Text { text: String, text_elements: Vec<TextElement> },
    Image { image_url: String },
    /// An image read from a local file, by its path.
    LocalImage { path: String },
    Skill { name: String, path: String },
    Mention { name: String, path: String },
}

/// A user message as recorded in a conversation: an id and its pieces of input.
pub struct UserMessageItem {
    pub id: String,
    pub content: Vec<UserInput>,
}

/// The text a piece of input contributes to a flattened message.
pub open spec fn input_text(item: UserInput) -> Seq<char> {
    match item {
        UserInput::Text { text, .. } => text@,
        _ => Seq::empty(),
    }
}

/// The texts of `items` joined in order, all other input left out.
pub open spec fn inputs_text(items: Seq<UserInput>) -> Seq<char>
    decreases items.len(),
{
    if items.len() == 0 {
        Seq::empty()
    } else {
        inputs_text(items.drop_last()) + input_text(items.last())
    }
}

/// Whether a piece of input is an image, remote or local.
pub open spec fn input_is_image(item: UserInput) -> bool {
    item is Image || item is LocalImage
}

/// How many pieces of `items` are images, remote or local.
pub open spec fn inputs_image_count(items: Seq<UserInput>) -> nat
    decreases items.len(),
{
    if items.len() == 0 {
        0
    } else {
        inputs_image_count(items.drop_last()) + if input_is_image(items.last()) {
            1nat
        } else {
            0nat
        }
    }
}

/// The urls of the remote images of `items`, in order.
pub open spec fn inputs_remote_images(items: Seq<UserInput>) -> Seq<Seq<char>>
    decreases items.len(),
{
    if items.len() == 0 {
        Seq::empty()
    } else {
        let rest = inputs_remote_images(items.drop_last());
        match items.last() {
            UserInput::Image { image_url } => rest.push(image_url@),
            _ => rest,
        }
    }
}

/// The paths of the local images of `items`, in order.
pub open spec fn inputs_local_images(items: Seq<UserInput>) -> Seq<Seq<char>>
    decreases items.len(),
{
    if items.len() == 0 {
        Seq::empty()
    } else {
        let rest = inputs_local_images(items.drop_last());
        match items.last() {
            UserInput::LocalImage { path } => rest.push(path@),
            _ => rest,
        }
    }
}

/// An element of `text` with its placeholder filled in from `text` where it had none.
pub open spec fn filled_element(e: TextElement, text: Seq<char>) -> (ByteRange, Option<Seq<char>>) {
    (e.byte_range, element_placeholder(e, text))
}

/// The elements a piece of input contributes to a message in which its text
/// starts `offset` bytes in: filled in from its own text, then moved by `offset`.
pub open spec fn input_elements(item: UserInput, offset: nat) -> Seq<(ByteRange, Option<Seq<char>>)> {
    match item {
        UserInput::Text { text, text_elements } => text_elements@.map_values(
            |e: TextElement| rebase_view(filled_element(e, text@), offset),
        ),
        _ => Seq::empty(),
    }
}

/// The elements of all texts of `items`, each placed where its text lands in
/// the joined message.
pub open spec fn inputs_elements(items: Seq<UserInput>) -> Seq<(ByteRange, Option<Seq<char>>)>
    decreases items.len(),
{
    if items.len() == 0 {
        Seq::empty()
    } else {
        inputs_elements(items.drop_last()) + input_elements(
            items.last(),
            utf8_len(inputs_text(items.drop_last())),
        )
    }
}

/// Whether joining the texts of `items` stays within the byte offsets a machine
/// word can hold, elements included.
pub open spec fn inputs_fit(items: Seq<UserInput>) -> bool
    decreases items.len(),
{
    if items.len() == 0 {
        true
    } else {
        &&& inputs_fit(items.drop_last())
        &&& utf8_len(inputs_text(items)) <= usize::MAX
        &&& match items.last() {
            UserInput::Text { text_elements, .. } => rebase_fits(
                text_elements@,
                utf8_len(inputs_text(items.drop_last())),
            ),
            _ => true,
        }
    }
}

/// Every prefix of inputs that fit fits too.
pub proof fn lemma_inputs_fit_prefix(items: Seq<UserInput>, j: int)
    requires
        inputs_fit(items),
        0 <= j <= items.len(),
    ensures
        inputs_fit(items.take(j)),
    decreases items.len(),
{
    if j == items.len() {
        assert(items.take(j) =~= items);
    } else {
        assert(items.drop_last().take(j) =~= items.take(j));
        lemma_inputs_fit_prefix(items.drop_last(), j);
    }
}

/// Each image of `items` is either remote or local, so the image count is the
/// number of remote image urls plus the number of local image paths.
pub proof fn lemma_image_count_splits(items: Seq<UserInput>)
    ensures
        inputs_image_count(items) == inputs_remote_images(items).len() + inputs_local_images(
            items,
        ).len(),
    decreases items.len(),
{
    if items.len() > 0 {
        lemma_image_count_splits(items.drop_last());
    }
}

/// The UTF-8 encoding of a piece of a text starts on a character boundary of
/// the whole: the point where `x` ends in `x + y` is a boundary.
pub proof fn lemma_concat_point_is_char_boundary(x: Seq<char>, y: Seq<char>)
    ensures
        utf8_len(x) <= utf8_len(x + y),
        is_char_boundary(encode_utf8(x + y), utf8_len(x) as int),
    decreases x.len(),
{
    lemma_encode_utf8_concat(x, y);
    if x.len() > 0 {
        let xy = x + y;
        let bytes = encode_utf8(xy);
        encode_utf8_first_scalar(xy);
        assert(xy[0] == x[0]);
        assert(xy.drop_first() =~= x.drop_first() + y);
        assert(pop_first_scalar(bytes) =~= encode_utf8(x.drop_first() + y));
        assert(encode_scalar(x[0] as u32).len() >= 1);
        assert(utf8_len(x) == encode_scalar(x[0] as u32).len() + utf8_len(x.drop_first()));
        lemma_concat_point_is_char_boundary(x.drop_first(), y);
    }
}

/// A byte range laid exactly over the piece `b` of the text `a + b + c` covers
/// that piece: its text is `b` itself, whatever comes before or after, and an
/// element with no placeholder of its own shows `b`. In particular the range
/// over a whole text covers the whole text.
pub proof fn lemma_text_slice_of_piece(a: Seq<char>, b: Seq<char>, c: Seq<char>)
    requires
        utf8_len(a) + utf8_len(b) <= usize::MAX,
    ensures
        ({
            let range = ByteRange {
                start: utf8_len(a) as usize,
                end: (utf8_len(a) + utf8_len(b)) as usize,
            };
            &&& text_slice(a + b + c, range) == Some(b)
            &&& element_placeholder(TextElement { byte_range: range, placeholder: None }, a + b + c)
                == Some(b)
        }),
        text_slice(b, ByteRange { start: 0, end: utf8_len(b) as usize }) == Some(b),
{
    let text = a + b + c;
    assert(text =~= a + (b + c));
    lemma_concat_point_is_char_boundary(a, b + c);
    lemma_concat_point_is_char_boundary(a + b, c);
    lemma_encode_utf8_concat(a, b);
    lemma_encode_utf8_concat(a + b, c);
    let bytes = encode_utf8(text);
    assert(bytes.subrange(utf8_len(a) as int, (utf8_len(a) + utf8_len(b)) as int) =~= encode_utf8(b));
    assert(decode_utf8(encode_utf8(b)) == b);
    let e = Seq::<char>::empty();
    assert(e + b + e =~= b);
    lemma_concat_point_is_char_boundary(e, b);
    lemma_concat_point_is_char_boundary(b, e);
    assert(b + e =~= b);
    assert(encode_utf8(e).len() == 0);
    assert(encode_utf8(b).subrange(0, utf8_len(b) as int) =~= encode_utf8(b));
}

/// Joining input is compositional: the texts, the image count, and the remote
/// and local images of two runs of input one after the other are those of the
/// first run followed by those of the second, in order.
pub proof fn lemma_inputs_concat(a: Seq<UserInput>, b: Seq<UserInput>)
    ensures
        inputs_text(a + b) == inputs_text(a) + inputs_text(b),
        inputs_image_count(a + b) == inputs_image_count(a) + inputs_image_count(b),
        inputs_remote_images(a + b) == inputs_remote_images(a) + inputs_remote_images(b),
        inputs_local_images(a + b) == inputs_local_images(a) + inputs_local_images(b),
    decreases b.len(),
{
    if b.len() == 0 {
        assert(a + b =~= a);
        assert(inputs_text(a) + inputs_text(b) =~= inputs_text(a));
        assert(inputs_remote_images(a) + inputs_remote_images(b) =~= inputs_remote_images(a));
        assert(inputs_local_images(a) + inputs_local_images(b) =~= inputs_local_images(a));
    } else {
        lemma_inputs_concat(a, b.drop_last());
        assert((a + b).drop_last() =~= a + b.drop_last());
        assert((a + b).last() == b.last());
        assert(inputs_text(a + b) =~= inputs_text(a) + inputs_text(b));
        assert(inputs_remote_images(a + b) =~= inputs_remote_images(a) + inputs_remote_images(b));
        assert(inputs_local_images(a + b) =~= inputs_local_images(a) + inputs_local_images(b));
    }
}

/// What one piece of input contributes when it is joined: a text contributes its
/// text and nothing else, a remote image its url and one to the count, a local
/// image its path and one to the count, anything else nothing.
pub proof fn lemma_single_input(item: UserInput)
    ensures
        inputs_text(seq![item]) == match item {
            UserInput::Text { text, .. } => text@,
            _ => Seq::<char>::empty(),
        },
        inputs_image_count(seq![item]) == match item {
            UserInput::Image { .. } | UserInput::LocalImage { .. } => 1nat,
            _ => 0nat,
        },
        inputs_remote_images(seq![item]) == match item {
            UserInput::Image { image_url } => seq![image_url@],
            _ => Seq::<Seq<char>>::empty(),
        },
        inputs_local_images(seq![item]) == match item {
            UserInput::LocalImage { path } => seq![path@],
            _ => Seq::<Seq<char>>::empty(),
        },
{
    let s = seq![item];
    assert(s.drop_last() =~= Seq::<UserInput>::empty());
    assert(s.last() == item);
    assert(inputs_text(s.drop_last()) =~= Seq::<char>::empty());
    assert(inputs_remote_images(s.drop_last()) =~= Seq::<Seq<char>>::empty());
    assert(inputs_local_images(s.drop_last()) =~= Seq::<Seq<char>>::empty());
    assert(inputs_image_count(s.drop_last()) == 0);
    assert(inputs_text(s) =~= match item {
        UserInput::Text { text, .. } => text@,
        _ => Seq::<char>::empty(),
    });
    assert(inputs_remote_images(s) =~= match item {
        UserInput::Image { image_url } => seq![image_url@],
        _ => Seq::<Seq<char>>::empty(),
    });
    assert(inputs_local_images(s) =~= match item {
        UserInput::LocalImage { path } => seq![path@],
        _ => Seq::<Seq<char>>::empty(),
    });
}

/// Appending one more piece of input: a text extends the joined text by exactly
/// its own text, whatever came before, and a local image is listed after the
/// local images before it.
pub proof fn lemma_push_input(items: Seq<UserInput>, item: UserInput)
    ensures
        item matches UserInput::Text { text, .. } ==> inputs_text(items.push(item)) == inputs_text(
            items,
        ) + text@,
        !(item is Text) ==> inputs_text(items.push(item)) == inputs_text(items),
        item matches UserInput::LocalImage { path } ==> inputs_local_images(items.push(item))
            == inputs_local_images(items).push(path@),
        item matches UserInput::Image { image_url } ==> inputs_remote_images(items.push(item))
            == inputs_remote_images(items).push(image_url@),
{
    assert(items.push(item) =~= items + seq![item]);
    lemma_inputs_concat(items, seq![item]);
    lemma_single_input(item);
    assert(inputs_text(items) + Seq::<char>::empty() =~= inputs_text(items));
}

} // verus!
