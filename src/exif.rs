//! Photo metadata read from EXIF fields, and the caption lines built from it.
use vstd::prelude::*;
use vstd::utf8::*;
use crate::text::{
    contains_chars, contains_text, decimal, digit, digit_char, join_lines, joined,
    lower_chars, lower_text, lines_view, opt_view, push_char, push_decimal, push_text, strip_quotes, utf8_text,
    without_char,
};

verus! {

/// The EXIF tags that the caption reads.
#[derive(Clone, Copy, Debug, PartialEq, Eq, Structural)]
pub enum ExifTag {
    Make,
    Model,
    Software,
    ExposureTime,
    FNumber,
    FocalLength,
    PhotographicSensitivity,
}

/// The first value of an EXIF field, as far as the caption reads it.
#[derive(Debug)]
pub enum ExifValue {
    /// A rational `num / denom`; `shown` is the metadata reader's own rendering,
    /// used for tags that are not formatted here.
    Rational { num: u32, denom: u32, shown: String },
    /// Raw ASCII-typed bytes.
    Ascii(Vec<u8>),
    /// A value of another type, as rendered by the metadata reader.
    Shown(String),
    /// A value that carries no text (an empty list, an undefined type).
    Unsupported,
}

/// EXIF fields of a photo's primary image.
pub struct ExifLoader {
    fields: Vec<(ExifTag, ExifValue)>,
}

/// A present text as a one-element list; an absent one as the empty list.
pub open spec fn opt_seq(o: Option<Seq<char>>) -> Seq<Seq<char>> {
    match o {
        Some(t) => seq![t],
        None => Seq::empty(),
    }
}

/// `a / b` rounded to the nearest integer, ties to even.
pub open spec fn round_half_even(a: nat, b: nat) -> nat {
    let q = a / b;
    let r = a % b;
    if r > b - r || (r == b - r && q % 2 == 1) {
        q + 1
    } else {
        q
    }
}

/// `num / denom` with two decimals, rounded to the nearest hundredth, ties to even.
pub open spec fn fixed2(num: nat, denom: nat) -> Seq<char> {
    let h = round_half_even(num * 100, denom);
    decimal(h / 100) + seq!['.', digit_char((h % 100) / 10), digit_char(h % 10)]
}

/// The text of one field value read under `tag`.
pub open spec fn value_text(tag: ExifTag, v: ExifValue) -> Option<Seq<char>> {
    match v {
        ExifValue::Rational { num, denom, shown } => match tag {
            ExifTag::ExposureTime => if num == 0 {
                None
            } else {
                Some(seq!['1', '/'] + decimal(round_half_even(denom as nat, num as nat)))
            },
            ExifTag::FNumber | ExifTag::FocalLength => if denom == 0 {
                None
            } else {
                Some(fixed2(num as nat, denom as nat))
            },
            _ => Some(shown@),
        },
        ExifValue::Ascii(b) => if valid_utf8(b@) {
            Some(without_char(decode_utf8(b@), '"'))
        } else {
            None
        },
        ExifValue::Shown(s) => Some(s@),
        ExifValue::Unsupported => None,
    }
}

/// The first value stored under `tag`.
pub open spec fn lookup(fields: Seq<(ExifTag, ExifValue)>, tag: ExifTag) -> Option<ExifValue>
    decreases fields.len(),
{
    if fields.len() == 0 {
        None
    } else if fields[0].0 == tag {
        Some(fields[0].1)
    } else {
        lookup(fields.drop_first(), tag)
    }
}

/// `pre + t` when present.
pub open spec fn prefixed(pre: Seq<char>, o: Option<Seq<char>>) -> Option<Seq<char>> {
    match o {
        Some(t) => Some(pre + t),
        None => None,
    }
}

/// `t + post` when present.
pub open spec fn suffixed(o: Option<Seq<char>>, post: Seq<char>) -> Option<Seq<char>> {
    match o {
        Some(t) => Some(t + post),
        None => None,
    }
}

/// Title-casing of a text as inflector computes it.
pub uninterp spec fn title_case_of(s: Seq<char>) -> Seq<char>;

/// Relies on inflector's `to_title_case`: its result depends on the characters
/// of the argument alone.
#[verifier::external_body]
fn title_case(s: &str) -> (r: String)
    ensures
        r@ == title_case_of(s@),
{
    inflector::cases::titlecase::to_title_case(s)
}

/// The maker/model line given the maker, its title-cased form and the model:
/// one of them alone when the other is missing; the model alone when it
/// already names the maker (ASCII case ignored); otherwise the title-cased
/// maker, a space and the model.
pub open spec fn merged_maker_model(
    maker: Option<Seq<char>>,
    titled_maker: Seq<char>,
    model: Option<Seq<char>>,
) -> Option<Seq<char>> {
    match (maker, model) {
        (None, None) => None,
        (None, Some(m)) => Some(m),
        (Some(_), None) => Some(titled_maker),
        (Some(k), Some(m)) => if contains_text(lower_text(m), lower_text(k)) {
            Some(m)
        } else {
            Some(titled_maker + seq![' '] + m)
        },
    }
}

/// The maker/model line of a photo.
pub open spec fn maker_model_text(maker: Option<Seq<char>>, model: Option<Seq<char>>) -> Option<
    Seq<char>,
> {
    match maker {
        Some(k) => merged_maker_model(maker, title_case_of(k), model),
        None => merged_maker_model(maker, Seq::empty(), model),
    }
}

/// Joins the present technical values with single spaces.
pub open spec fn info_text(parts: Seq<Seq<char>>) -> Option<Seq<char>> {
    if parts.len() == 0 {
        None
    } else {
        Some(joined(parts, seq![' ']))
    }
}

/// The caption lines that come before the attribution.
pub open spec fn metadata_lines(maker_model: Option<Seq<char>>, info: Option<Seq<char>>) -> Seq<
    Seq<char>,
> {
    let body = opt_seq(prefixed("📸 Снято на: "@, maker_model)) + opt_seq(
        prefixed("ℹ️ "@, info),
    );
    if body.len() > 0 {
        body.push(Seq::empty())
    } else {
        body
    }
}

/// Appends `o` to the list when present.
fn push_present(v: &mut Vec<String>, o: Option<String>)
    ensures
        lines_view(final(v)@) == lines_view(old(v)@) + opt_seq(opt_view(o)),
{
    match o {
        Some(s) => {
            v.push(s);
            assert(lines_view(final(v)@) =~= lines_view(old(v)@) + opt_seq(opt_view(o)));
        },
        None => {
            assert(lines_view(final(v)@) =~= lines_view(old(v)@) + opt_seq(opt_view(o)));
        },
    }
}

/// `a / b` rounded to the nearest integer, ties to even.
pub fn rounded_quotient(a: u64, b: u64) -> (r: u64)
    requires
        b > 0,
        a < 0x1_0000_0000_0000,
    ensures
        r == round_half_even(a as nat, b as nat),
{
    let q = a / b;
    let m = a % b;
    assert(q <= a) by (nonlinear_arith)
        requires
            b > 0,
            q == a / b,
    ;
    if m > b - m || (m == b - m && q % 2 == 1) {
        q + 1
    } else {
        q
    }
}

/// Appends `num / denom` with two decimals.
fn push_fixed2(s: &mut String, num: u32, denom: u32)
    requires
        denom > 0,
    ensures
        final(s)@ == old(s)@ + fixed2(num as nat, denom as nat),
{
    let h = rounded_quotient(num as u64 * 100, denom as u64);
    push_decimal(s, h / 100);
    push_char(s, '.');
    push_char(s, digit((h % 100) / 10));
    push_char(s, digit(h % 10));
    assert(final(s)@ =~= old(s)@ + fixed2(num as nat, denom as nat));
}

/// The text of one field value read under `tag`.
pub fn value_string(tag: ExifTag, v: &ExifValue) -> (r: Option<String>)
    ensures
        opt_view(r) == value_text(tag, *v),
{
    match v {
        ExifValue::Rational { num, denom, shown } => match tag {
            ExifTag::ExposureTime => {
                if *num == 0 {
                    None
                } else {
                    let mut s = String::new();
                    push_char(&mut s, '1');
                    push_char(&mut s, '/');
                    push_decimal(&mut s, rounded_quotient(*denom as u64, *num as u64));
                    assert(s@ =~= seq!['1', '/'] + decimal(
                        round_half_even(*denom as nat, *num as nat),
                    ));
                    Some(s)
                }
            },
            ExifTag::FNumber | ExifTag::FocalLength => {
                if *denom == 0 {
                    None
                } else {
                    let mut s = String::new();
                    push_fixed2(&mut s, *num, *denom);
                    assert(s@ =~= fixed2(*num as nat, *denom as nat));
                    Some(s)
                }
            },
            _ => Some(shown.clone()),
        },
        ExifValue::Ascii(b) => match utf8_text(b.clone()) {
            Some(t) => Some(strip_quotes(t.as_str())),
            None => None,
        },
        ExifValue::Shown(s) => Some(s.clone()),
        ExifValue::Unsupported => None,
    }
}

/// The maker/model line given the maker, its title-cased form and the model.
pub fn merge_maker_model(maker: Option<String>, titled_maker: String, model: Option<String>) -> (r:
    Option<String>)
    ensures
        opt_view(r) == merged_maker_model(opt_view(maker), titled_maker@, opt_view(model)),
{
    match (maker, model) {
        (None, None) => None,
        (None, Some(m)) => Some(m),
        (Some(_), None) => Some(titled_maker),
        (Some(k), Some(m)) => {
            let lm = lower_chars(m.as_str());
            let lk = lower_chars(k.as_str());
            if contains_chars(&lm, &lk) {
                Some(m)
            } else {
                let mut s = titled_maker;
                push_char(&mut s, ' ');
                push_text(&mut s, m.as_str());
                Some(s)
            }
        },
    }
}

/// The caption lines that come before the attribution, given the maker/model
/// line and the technical line.
pub fn compose_metadata_lines(maker_model: Option<String>, info: Option<String>) -> (r: Vec<String>)
    ensures
        lines_view(r@) == metadata_lines(opt_view(maker_model), opt_view(info)),
{
    let mut v: Vec<String> = Vec::new();
    let a = match maker_model {
        Some(m) => {
            let mut s = String::new();
            push_text(&mut s, "📸 Снято на: ");
            push_text(&mut s, m.as_str());
            Some(s)
        },
        None => None,
    };
    push_present(&mut v, a);
    let b = match info {
        Some(i) => {
            let mut s = String::new();
            push_text(&mut s, "ℹ️ ");
            push_text(&mut s, i.as_str());
            Some(s)
        },
        None => None,
    };
    push_present(&mut v, b);
    if v.len() > 0 {
        v.push(String::new());
        assert(lines_view(v@) =~= metadata_lines(opt_view(maker_model), opt_view(info)));
    } else {
        assert(lines_view(v@) =~= metadata_lines(opt_view(maker_model), opt_view(info)));
    }
    v
}

impl ExifLoader {
    /// The fields in the order they were given.
    pub closed spec fn entries(&self) -> Seq<(ExifTag, ExifValue)> {
        self.fields@
    }

    /// The value stored under `tag`, if any.
    pub open spec fn value_of(&self, tag: ExifTag) -> Option<ExifValue> {
        lookup(self.entries(), tag)
    }

    /// The text of the field under `tag`.
    pub open spec fn field_text(&self, tag: ExifTag) -> Option<Seq<char>> {
        match self.value_of(tag) {
            Some(v) => value_text(tag, v),
            None => None,
        }
    }

    pub open spec fn maker_text(&self) -> Option<Seq<char>> {
        self.field_text(ExifTag::Make)
    }

    pub open spec fn model_text(&self) -> Option<Seq<char>> {
        self.field_text(ExifTag::Model)
    }

    pub open spec fn exposure_text(&self) -> Option<Seq<char>> {
        suffixed(self.field_text(ExifTag::ExposureTime), seq!['s'])
    }

    pub open spec fn focal_number_text(&self) -> Option<Seq<char>> {
        prefixed(seq!['f', '/'], self.field_text(ExifTag::FNumber))
    }

    pub open spec fn focal_length_text(&self) -> Option<Seq<char>> {
        suffixed(self.field_text(ExifTag::FocalLength), seq!['m', 'm'])
    }

    pub open spec fn iso_text(&self) -> Option<Seq<char>> {
        prefixed(seq!['I', 'S', 'O'], self.field_text(ExifTag::PhotographicSensitivity))
    }

    /// The present technical values in caption order.
    pub open spec fn info_parts(&self) -> Seq<Seq<char>> {
        opt_seq(self.focal_number_text()) + opt_seq(self.exposure_text()) + opt_seq(
            self.focal_length_text(),
        ) + opt_seq(self.iso_text())
    }

    /// Metadata made of the given fields; for a tag given twice the first counts.
    pub fn new(fields: Vec<(ExifTag, ExifValue)>) -> (r: ExifLoader)
        ensures
            r.entries() == fields@,
    {
        ExifLoader { fields }
    }

    /// Metadata with no fields, for a photo whose metadata cannot be read.
    pub fn empty() -> (r: ExifLoader)
        ensures
            forall|t: ExifTag| r.value_of(t) is None,
    {
        ExifLoader { fields: Vec::new() }
    }

    fn field_index(&self, tag: ExifTag) -> (r: Option<usize>)
        ensures
            match r {
                Some(i) => i < self.fields@.len() && self.value_of(tag) == Some(self.fields@[i as int].1),
                None => self.value_of(tag) is None,
            },
    {
        let mut i: usize = 0;
        assert(self.fields@.subrange(0, self.fields@.len() as int) =~= self.fields@);
        while i < self.fields.len()
            invariant
                i <= self.fields@.len(),
                lookup(self.fields@, tag) == lookup(self.fields@.subrange(i as int, self.fields@.len() as int), tag),
            decreases self.fields@.len() - i,
        {
            let ghost rest = self.fields@.subrange(i as int, self.fields@.len() as int);
            assert(rest[0] == self.fields@[i as int]);
            if self.fields[i].0 == tag {
                return Some(i);
            }
            assert(rest.drop_first() =~= self.fields@.subrange(i + 1, self.fields@.len() as int));
            i = i + 1;
        }
        None
    }

    /// The text of the field under `tag`: a rational exposure time as `1/N`,
    /// an f-number or focal length with two decimals, ASCII text without double
    /// quotes, other values as the metadata reader renders them.
    pub fn get_field_string(&self, tag: ExifTag) -> (r: Option<String>)
        ensures
            opt_view(r) == self.field_text(tag),
    {
        match self.field_index(tag) {
            Some(i) => value_string(tag, &self.fields[i].1),
            None => None,
        }
    }

    pub fn get_maker(&self) -> (r: Option<String>)
        ensures
            opt_view(r) == self.maker_text(),
    {
        self.get_field_string(ExifTag::Make)
    }

    pub fn get_model(&self) -> (r: Option<String>)
        ensures
            opt_view(r) == self.model_text(),
    {
        self.get_field_string(ExifTag::Model)
    }

    pub fn get_software(&self) -> (r: Option<String>)
        ensures
            opt_view(r) == self.field_text(ExifTag::Software),
    {
        self.get_field_string(ExifTag::Software)
    }

    /// The exposure time followed by `s`.
    pub fn get_exposure_time(&self) -> (r: Option<String>)
        ensures
            opt_view(r) == self.exposure_text(),
    {
        match self.get_field_string(ExifTag::ExposureTime) {
            Some(f) => {
                let mut s = f;
                push_char(&mut s, 's');
                Some(s)
            },
            None => None,
        }
    }

    /// The f-number after `f/`.
    pub fn get_focal_number(&self) -> (r: Option<String>)
        ensures
            opt_view(r) == self.focal_number_text(),
    {
        match self.get_field_string(ExifTag::FNumber) {
            Some(f) => {
                let mut s = String::new();
                push_char(&mut s, 'f');
                push_char(&mut s, '/');
                push_text(&mut s, f.as_str());
                assert(s@ =~= seq!['f', '/'] + f@);
                Some(s)
            },
            None => None,
        }
    }

    /// The focal length followed by `mm`.
    pub fn get_focal_length(&self) -> (r: Option<String>)
        ensures
            opt_view(r) == self.focal_length_text(),
    {
        match self.get_field_string(ExifTag::FocalLength) {
            Some(f) => {
                let mut s = f;
                push_char(&mut s, 'm');
                push_char(&mut s, 'm');
                assert(s@ =~= f@ + seq!['m', 'm']);
                Some(s)
            },
            None => None,
        }
    }

    /// The sensitivity after `ISO`.
    pub fn get_iso(&self) -> (r: Option<String>)
        ensures
            opt_view(r) == self.iso_text(),
    {
        match self.get_field_string(ExifTag::PhotographicSensitivity) {
            Some(f) => {
                let mut s = String::new();
                push_char(&mut s, 'I');
                push_char(&mut s, 'S');
                push_char(&mut s, 'O');
                push_text(&mut s, f.as_str());
                assert(s@ =~= seq!['I', 'S', 'O'] + f@);
                Some(s)
            },
            None => None,
        }
    }

    /// The present values among f-number, exposure time, focal length and ISO,
    /// in that order, joined by single spaces; `None` when none is present.
    pub fn get_photo_info_string(&self) -> (r: Option<String>)
        ensures
            opt_view(r) == info_text(self.info_parts()),
    {
        let mut parts: Vec<String> = Vec::new();
        push_present(&mut parts, self.get_focal_number());
        push_present(&mut parts, self.get_exposure_time());
        push_present(&mut parts, self.get_focal_length());
        push_present(&mut parts, self.get_iso());
        assert(lines_view(parts@) =~= self.info_parts());
        if parts.len() == 0 {
            None
        } else {
            proof {
                reveal_strlit(" ");
                assert(" "@ =~= seq![' ']);
            }
            Some(join_lines(&parts, " "))
        }
    }

    /// The maker/model line (see `merged_maker_model`).
    pub fn get_maker_model(&self) -> (r: Option<String>)
        ensures
            opt_view(r) == maker_model_text(self.maker_text(), self.model_text()),
    {
        let maker = self.get_maker();
        let model = self.get_model();
        let titled = match &maker {
            Some(k) => title_case(k.as_str()),
            None => String::new(),
        };
        merge_maker_model(maker, titled, model)
    }

    /// The caption lines before the attribution: the maker/model line, the
    /// technical line and, when either is present, a blank separator.
    pub fn caption_lines(&self) -> (r: Vec<String>)
        ensures
            lines_view(r@) == metadata_lines(
                maker_model_text(self.maker_text(), self.model_text()),
                info_text(self.info_parts()),
            ),
    {
        compose_metadata_lines(self.get_maker_model(), self.get_photo_info_string())
    }
}

} // verus!
