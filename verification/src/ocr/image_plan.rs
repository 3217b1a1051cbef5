//! How a screenshot is shrunk until its base64 text fits the providers' limit:
//! first lower JPEG quality, then smaller sides, and the format that came closer
//! is tried first; of the encodings of one round that fit, the smallest is sent.
use vstd::prelude::*;
use base64::Engine;

verus! {

/// The longest side of the first attempt.
pub const INITIAL_MAX_SIDE: u32 = 1280;

/// The largest base64 length that the providers take.
pub const SAFE_BASE64_MAX: usize = 3_900_000;

/// Below this longest side the image is not shrunk further.
pub const MIN_SIDE: u32 = 512;

/// The JPEG quality of the first attempt.
pub const INITIAL_JPEG_QUALITY: u8 = 85;

/// The most rounds of encoding.
pub const MAX_ROUNDS: u32 = 10;

/// An image encoding.
#[derive(Debug, PartialEq, Eq, Structural, Clone, Copy)]
pub enum ImageFormat {
    Png,
    Jpeg,
}

/// The length of the base64 text of `raw_bytes` bytes: four characters for
/// every three bytes begun.
pub open spec fn base64_len(raw_bytes: nat) -> nat {
    ((raw_bytes + 2) / 3) * 4
}

/// The length of the base64 text of `raw_bytes` bytes.
pub fn estimate_base64_len(raw_bytes: usize) -> (r: usize)
    requires
        raw_bytes <= isize::MAX,
    ensures
        r == base64_len(raw_bytes as nat),
{
    ((raw_bytes + 2) / 3) * 4
}

/// Whether an encoding of `raw_bytes` bytes is small enough to send.
pub fn fits(raw_bytes: usize) -> (r: bool)
    requires
        raw_bytes <= isize::MAX,
    ensures
        r == (base64_len(raw_bytes as nat) <= SAFE_BASE64_MAX),
{
    estimate_base64_len(raw_bytes) <= SAFE_BASE64_MAX
}

/// The character of a six-bit value in the standard base64 alphabet:
/// `A`..`Z`, `a`..`z`, `0`..`9`, `+`, `/`.
pub open spec fn base64_char(v: nat) -> char {
    if v < 26 {
        (65 + v) as char
    } else if v < 52 {
        (97 + v - 26) as char
    } else if v < 62 {
        (48 + v - 52) as char
    } else if v == 62 {
        '+'
    } else {
        '/'
    }
}

/// The base64 text of `bytes` in the standard alphabet with padding: each group
/// of three bytes, as a 24-bit number, gives four characters of six bits each,
/// most significant first; a last group of one or two bytes is filled up with
/// zero bits and the text with `=` to four characters.
pub open spec fn base64_text(bytes: Seq<u8>) -> Seq<char>
    decreases bytes.len(),
{
    if bytes.len() == 0 {
        Seq::empty()
    } else if bytes.len() == 1 {
        let n = bytes[0] as nat;
        seq![base64_char(n / 4), base64_char((n % 4) * 16), '=', '=']
    } else if bytes.len() == 2 {
        let n = (bytes[0] as nat) * 256 + (bytes[1] as nat);
        seq![base64_char(n / 1024), base64_char((n / 16) % 64), base64_char((n % 16) * 4), '=']
    } else {
        let n = (bytes[0] as nat) * 65536 + (bytes[1] as nat) * 256 + (bytes[2] as nat);
        seq![
            base64_char(n / 262144),
            base64_char((n / 4096) % 64),
            base64_char((n / 64) % 64),
            base64_char(n % 64),
        ] + base64_text(bytes.subrange(3, bytes.len() as int))
    }
}

/// The base64 text has four characters for every three bytes begun.
pub proof fn lemma_base64_len(bytes: Seq<u8>)
    ensures
        base64_text(bytes).len() == base64_len(bytes.len()),
    decreases bytes.len(),
{
    if bytes.len() >= 3 {
        lemma_base64_len(bytes.subrange(3, bytes.len() as int));
        assert(((bytes.len() - 3 + 2) as nat / 3) * 4 + 4 == ((bytes.len() + 2) as nat / 3) * 4);
    }
}

/// Encodes bytes with `base64::engine::general_purpose::STANDARD.encode`. The
/// contract claims that the text is the standard base64 text with padding.
#[verifier::external_body]
fn base64_standard(bytes: &[u8]) -> (r: String)
    requires
        bytes@.len() <= isize::MAX,
    ensures
        r@ == base64_text(bytes@),
{
    base64::engine::general_purpose::STANDARD.encode(bytes)
}

/// The base64 text of `bytes`, standard alphabet with padding: four characters
/// for every three bytes begun.
pub fn base64_encode(bytes: &[u8]) -> (r: String)
    requires
        bytes@.len() <= isize::MAX,
    ensures
        r@ == base64_text(bytes@),
        r@.len() == base64_len(bytes@.len()),
{
    proof {
        lemma_base64_len(bytes@);
    }
    base64_standard(bytes)
}

/// The start of the data URL of an encoded image.
pub open spec fn data_url_prefix(format: ImageFormat) -> Seq<char> {
    match format {
        ImageFormat::Png => "data:image/png;base64,"@,
        ImageFormat::Jpeg => "data:image/jpeg;base64,"@,
    }
}

/// The data URL of an encoded image: its media type and its base64 text.
pub fn data_url(format: ImageFormat, bytes: &[u8]) -> (r: String)
    requires
        bytes@.len() <= isize::MAX,
    ensures
        r@ == data_url_prefix(format) + base64_text(bytes@),
        r@.len() == data_url_prefix(format).len() + base64_len(bytes@.len()),
{
    let mut out = match format {
        ImageFormat::Png => "data:image/png;base64,".to_string(),
        ImageFormat::Jpeg => "data:image/jpeg;base64,".to_string(),
    };
    let text = base64_encode(bytes);
    out.append(text.as_str());
    out
}

/// The side after one shrinking step: 85 percent, rounded down.
pub open spec fn shrink(side: nat) -> nat {
    side * 85 / 100
}

/// Where the shrinking stands: the format tried first, the cap on the longer
/// side, the JPEG quality, and the rounds encoded so far.
#[derive(Debug)]
pub struct CompressionPlan {
    prefer_png: bool,
    side_cap: u32,
    jpeg_quality: u8,
    round: u32,
}

/// What comes after a round in which no encoding fitted.
#[derive(Debug, PartialEq, Eq)]
pub enum NextStep {
    /// Encode the same image again, with the lowered JPEG quality.
    Retry,
    /// Shrink the image so that its longer side is at most this, then encode again.
    Resize(u32),
    /// Give up: the image stays too large.
    GiveUp,
}

/// The format of the smallest candidate, the first one among equals.
pub open spec fn smallest_format(candidates: Seq<(ImageFormat, usize)>) -> Option<ImageFormat>
    decreases candidates.len(),
{
    if candidates.len() == 0 {
        None
    } else {
        match smallest_format(candidates.drop_last()) {
            None => Some(candidates.last().0),
            Some(f) => {
                let best = smallest_len(candidates.drop_last());
                if candidates.last().1 < best {
                    Some(candidates.last().0)
                } else {
                    Some(f)
                }
            },
        }
    }
}

/// The smallest length among the candidates.
pub open spec fn smallest_len(candidates: Seq<(ImageFormat, usize)>) -> nat
    decreases candidates.len(),
{
    if candidates.len() == 0 {
        0
    } else if candidates.len() == 1 {
        candidates[0].1 as nat
    } else {
        let best = smallest_len(candidates.drop_last());
        if (candidates.last().1 as nat) < best {
            candidates.last().1 as nat
        } else {
            best
        }
    }
}

/// The encoding to send from one round's candidates (format, base64 length),
/// by its index: the smallest whose base64 text fits, the first among equals;
/// `None` where none fits.
pub fn choose_encoding(candidates: &Vec<(ImageFormat, usize)>) -> (r: Option<usize>)
    ensures
        r matches Some(i) ==> i < candidates@.len() && candidates@[i as int].1 <= SAFE_BASE64_MAX
            && (forall|j: int|
            0 <= j < candidates@.len() && candidates@[j].1 <= SAFE_BASE64_MAX ==> candidates@[i as int].1
                <= #[trigger] candidates@[j].1) && (forall|j: int|
            0 <= j < i && candidates@[j].1 <= SAFE_BASE64_MAX ==> candidates@[i as int].1
                < #[trigger] candidates@[j].1),
        r is None ==> forall|j: int| 0 <= j < candidates@.len() ==> #[trigger] candidates@[j].1 > SAFE_BASE64_MAX,
{
    let mut best: Option<usize> = None;
    let mut k: usize = 0;
    while k < candidates.len()
        invariant
            k <= candidates@.len(),
            best matches Some(i) ==> i < k && candidates@[i as int].1 <= SAFE_BASE64_MAX
                && (forall|j: int|
                0 <= j < k && candidates@[j].1 <= SAFE_BASE64_MAX ==> candidates@[i as int].1
                    <= #[trigger] candidates@[j].1) && (forall|j: int|
                0 <= j < i && candidates@[j].1 <= SAFE_BASE64_MAX ==> candidates@[i as int].1
                    < #[trigger] candidates@[j].1),
            best is None ==> forall|j: int| 0 <= j < k ==> #[trigger] candidates@[j].1 > SAFE_BASE64_MAX,
        decreases candidates@.len() - k,
    {
        let len = candidates[k].1;
        if len <= SAFE_BASE64_MAX {
            match best {
                None => {
                    best = Some(k);
                },
                Some(i) => {
                    if len < candidates[i].1 {
                        best = Some(k);
                    }
                },
            }
        }
        k = k + 1;
    }
    best
}

impl CompressionPlan {
    /// The cap on the longer side never grows past the first one, nor the JPEG
    /// quality past the first one.
    #[verifier::type_invariant]
    spec fn inv(self) -> bool {
        self.side_cap <= INITIAL_MAX_SIDE && self.jpeg_quality <= INITIAL_JPEG_QUALITY
    }

    /// Whether PNG is tried first.
    pub closed spec fn prefer_png_spec(&self) -> bool {
        self.prefer_png
    }

    /// The cap on the longer side.
    pub closed spec fn side_cap_spec(&self) -> nat {
        self.side_cap as nat
    }

    /// The JPEG quality.
    pub closed spec fn jpeg_quality_spec(&self) -> nat {
        self.jpeg_quality as nat
    }

    /// The rounds encoded so far.
    pub closed spec fn round_spec(&self) -> nat {
        self.round as nat
    }

    /// Whether PNG is tried first.
    pub fn prefer_png(&self) -> (r: bool)
        ensures
            r == self.prefer_png_spec(),
    {
        self.prefer_png
    }

    /// The cap on the longer side.
    pub fn side_cap(&self) -> (r: u32)
        ensures
            r == self.side_cap_spec(),
            r <= INITIAL_MAX_SIDE,
    {
        proof {
            use_type_invariant(self);
        }
        self.side_cap
    }

    /// The JPEG quality.
    pub fn jpeg_quality(&self) -> (r: u8)
        ensures
            r == self.jpeg_quality_spec(),
            r <= INITIAL_JPEG_QUALITY,
    {
        proof {
            use_type_invariant(self);
        }
        self.jpeg_quality
    }

    /// The rounds encoded so far.
    pub fn round(&self) -> (r: u32)
        ensures
            r == self.round_spec(),
    {
        self.round
    }

    /// The first round: PNG first for an image with transparency, the longest
    /// side 1280, JPEG quality 85.
    pub fn start(has_alpha: bool) -> (r: CompressionPlan)
        ensures
            r.prefer_png_spec() == has_alpha,
            r.side_cap_spec() == INITIAL_MAX_SIDE,
            r.jpeg_quality_spec() == INITIAL_JPEG_QUALITY,
            r.round_spec() == 0,
    {
        CompressionPlan {
            prefer_png: has_alpha,
            side_cap: INITIAL_MAX_SIDE,
            jpeg_quality: INITIAL_JPEG_QUALITY,
            round: 0,
        }
    }

    /// Whether another round may be encoded.
    pub fn has_rounds_left(&self) -> (r: bool)
        ensures
            r == (self.round_spec() < MAX_ROUNDS),
    {
        self.round < MAX_ROUNDS
    }

    /// The formats to try this round, in order: the preferred one first.
    pub fn encode_order(&self) -> (r: (ImageFormat, ImageFormat))
        ensures
            self.prefer_png_spec() ==> r == (ImageFormat::Png, ImageFormat::Jpeg),
            !self.prefer_png_spec() ==> r == (ImageFormat::Jpeg, ImageFormat::Png),
    {
        if self.prefer_png {
            (ImageFormat::Png, ImageFormat::Jpeg)
        } else {
            (ImageFormat::Jpeg, ImageFormat::Png)
        }
    }

    /// After a round in which no encoding fitted, with the base64 lengths of the
    /// encodings that worked: while the JPEG quality is above 55 it drops by 10
    /// and the same image is tried again; else the longer side shrinks to 85
    /// percent, unless that falls below 512, and the format that came out
    /// smallest is preferred from then on.
    pub fn next_round(&mut self, candidates: &Vec<(ImageFormat, usize)>) -> (r: NextStep)
        requires
            old(self).round_spec() < MAX_ROUNDS,
        ensures
            old(self).jpeg_quality_spec() > 55 ==> r is Retry && final(self).jpeg_quality_spec()
                == old(self).jpeg_quality_spec() - 10 && final(self).side_cap_spec() == old(
                self,
            ).side_cap_spec() && final(self).prefer_png_spec() == old(self).prefer_png_spec()
                && final(self).round_spec() == old(self).round_spec() + 1,
            old(self).jpeg_quality_spec() <= 55 && shrink(old(self).side_cap_spec()) < MIN_SIDE ==> r is GiveUp
                && *final(self) == *old(self),
            old(self).jpeg_quality_spec() <= 55 && shrink(old(self).side_cap_spec()) >= MIN_SIDE ==> (r
                matches NextStep::Resize(side) && side == shrink(old(self).side_cap_spec())
                && final(self).side_cap_spec() == side && final(self).jpeg_quality_spec() == old(
                self,
            ).jpeg_quality_spec() && final(self).round_spec() == old(self).round_spec() + 1
                && final(self).prefer_png_spec() == (match smallest_format(candidates@) {
                    Some(f) => f == ImageFormat::Png,
                    None => old(self).prefer_png_spec(),
                })),
    {
        proof {
            use_type_invariant(&*self);
        }
        if self.jpeg_quality > 55 {
            self.jpeg_quality = self.jpeg_quality - 10;
            self.round = self.round + 1;
            return NextStep::Retry;
        }
        let side: u32 = ((self.side_cap as u64) * 85 / 100) as u32;
        if side < MIN_SIDE {
            return NextStep::GiveUp;
        }
        self.side_cap = side;
        match best_format(candidates) {
            Some(f) => {
                self.prefer_png = f == ImageFormat::Png;
            },
            None => {},
        }
        self.round = self.round + 1;
        NextStep::Resize(side)
    }
}

fn best_format(candidates: &Vec<(ImageFormat, usize)>) -> (r: Option<ImageFormat>)
    ensures
        r == smallest_format(candidates@),
{
    if candidates.len() == 0 {
        return None;
    }
    let mut best: ImageFormat = candidates[0].0;
    let mut best_len: usize = candidates[0].1;
    assert(candidates@.subrange(0, 1).drop_last() =~= Seq::<(ImageFormat, usize)>::empty());
    assert(candidates@.subrange(0, 1)[0] == candidates@[0]);
    assert(candidates@.subrange(0, 1).last() == candidates@[0]);
    assert(smallest_format(Seq::<(ImageFormat, usize)>::empty()) is None);
    assert(smallest_format(candidates@.subrange(0, 1)) == Some(best));
    let mut i: usize = 1;
    while i < candidates.len()
        invariant
            1 <= i <= candidates@.len(),
            smallest_format(candidates@.subrange(0, i as int)) == Some(best),
            smallest_len(candidates@.subrange(0, i as int)) == best_len,
        decreases candidates@.len() - i,
    {
        assert(candidates@.subrange(0, i + 1).drop_last() =~= candidates@.subrange(0, i as int));
        if candidates[i].1 < best_len {
            best = candidates[i].0;
            best_len = candidates[i].1;
        }
        i = i + 1;
    }
    assert(candidates@.subrange(0, candidates@.len() as int) =~= candidates@);
    Some(best)
}

/// The smallest candidate as `smallest_format` and `smallest_len` find it: its
/// index, with a length no larger than any candidate's and smaller than every
/// earlier candidate's.
proof fn lemma_smallest_at(c: Seq<(ImageFormat, usize)>) -> (i: int)
    requires
        c.len() > 0,
    ensures
        0 <= i < c.len(),
        smallest_format(c) == Some(c[i].0),
        smallest_len(c) == c[i].1 as nat,
        forall|j: int| 0 <= j < c.len() ==> c[i].1 <= #[trigger] c[j].1,
        forall|j: int| 0 <= j < i ==> c[i].1 < #[trigger] c[j].1,
    decreases c.len(),
{
    if c.len() == 1 {
        assert(c.drop_last() =~= Seq::<(ImageFormat, usize)>::empty());
        0
    } else {
        let d = c.drop_last();
        let k = lemma_smallest_at(d);
        assert(forall|j: int| 0 <= j < d.len() ==> d[j] == c[j]);
        if c.last().1 < smallest_len(d) {
            let n = c.len() - 1;
            assert forall|j: int| 0 <= j < c.len() implies c[n].1 <= #[trigger] c[j].1 by {
                if j < n {
                    assert(d[j] == c[j]);
                    assert(d[k].1 <= d[j].1);
                }
            }
            assert forall|j: int| 0 <= j < n implies c[n].1 < #[trigger] c[j].1 by {
                assert(d[j] == c[j]);
                assert(d[k].1 <= d[j].1);
            }
            n
        } else {
            assert forall|j: int| 0 <= j < c.len() implies c[k].1 <= #[trigger] c[j].1 by {
                if j < c.len() - 1 {
                    assert(d[j] == c[j]);
                    assert(d[k].1 <= d[j].1);
                }
            }
            assert forall|j: int| 0 <= j < k implies c[k].1 < #[trigger] c[j].1 by {
                assert(d[j] == c[j]);
                assert(d[k].1 < d[j].1);
            }
            k
        }
    }
}

/// The format preferred after a resize is that of a candidate whose base64
/// text is no longer than any other's, the first such candidate; with no
/// candidate the preference stays.
pub proof fn lemma_smallest_format(c: Seq<(ImageFormat, usize)>)
    ensures
        smallest_format(c) is None <==> c.len() == 0,
        smallest_format(c) matches Some(f) ==> exists|i: int|
            0 <= i < c.len() && c[i].0 == f && (forall|j: int| 0 <= j < c.len() ==> c[i].1 <= #[trigger] c[j].1)
                && (forall|j: int| 0 <= j < i ==> c[i].1 < #[trigger] c[j].1),
{
    if c.len() > 0 {
        let i = lemma_smallest_at(c);
        assert(c[i].0 == smallest_format(c)->Some_0);
    }
}

} // verus!
