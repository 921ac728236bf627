//! The persistence codec: how the durable fields travel through the
//! opaque blob that the host's storage keeps across restarts.
//!
//! The blob is a sequence of tagged records, one per durable field
//! (`mode`, `page`, `label`); the transient `value` is omitted by design.
//! Decoding is a best-effort merge against the current schema: a record
//! may be absent, in which case its field keeps its compiled-in default,
//! and a blob that is malformed in any way loads as the full default
//! state rather than failing.

use vstd::prelude::*;
use vstd::string::StrSliceExecFns;
use vstd::string::StringSliceAdditionalSpecFns;
use vstd::utf8::{decode_utf8, encode_utf8, encode_utf8_decode_utf8, encode_utf8_valid_utf8,
    valid_utf8};

use crate::state::{default_label, ClassNotes, Mode, Page, DEFAULT_VALUE_TENTHS};

verus! {

/// Record tag of the UTF-8 encoded label text.  The label record has no
/// length field: it is always the last record and runs to the end of the
/// blob.
pub const LABEL_TAG: u8 = 1;

/// Record tag of the mode selector, followed by one byte.
pub const MODE_TAG: u8 = 2;

/// Record tag of the page selector, followed by one byte.
pub const PAGE_TAG: u8 = 3;

/// The wire byte of each mode.
pub open spec fn mode_byte(m: Mode) -> u8 {
    match m {
        Mode::NONE => 0,
        Mode::NOTES => 1,
    }
}

/// The mode a wire byte stands for, if any.
pub open spec fn byte_mode(v: u8) -> Option<Mode> {
    if v == 0 {
        Option::Some(Mode::NONE)
    } else if v == 1 {
        Option::Some(Mode::NOTES)
    } else {
        Option::None
    }
}

/// The wire byte of each page.
pub open spec fn page_byte(p: Page) -> u8 {
    match p {
        Page::NONE => 0,
        Page::KthSmallestIntro => 1,
    }
}

/// The page a wire byte stands for, if any.
pub open spec fn byte_page(v: u8) -> Option<Page> {
    if v == 0 {
        Option::Some(Page::NONE)
    } else if v == 1 {
        Option::Some(Page::KthSmallestIntro)
    } else {
        Option::None
    }
}

/// The durable fields that a decodable blob yields; a field is `None`
/// when its record is absent from the blob.
pub struct ParsedFields {
    pub label: Option<Seq<char>>,
    pub mode: Option<Mode>,
    pub page: Option<Page>,
}

/// The accumulator a decode starts from: no field seen yet.
pub open spec fn empty_fields() -> ParsedFields {
    ParsedFields { label: Option::None, mode: Option::None, page: Option::None }
}

/// The record grammar of the blob, as a left-to-right parse.  `None` is
/// a malformed blob: an unknown tag, a truncated record, a selector byte
/// outside its enumeration, or label bytes that are not UTF-8.
pub open spec fn spec_parse(b: Seq<u8>, acc: ParsedFields) -> Option<ParsedFields>
    decreases b.len(),
{
    if b.len() == 0 {
        Option::Some(acc)
    } else if b[0] == MODE_TAG {
        if b.len() >= 2 && byte_mode(b[1]) is Some {
            spec_parse(
                b.skip(2),
                ParsedFields { label: acc.label, mode: byte_mode(b[1]), page: acc.page },
            )
        } else {
            Option::None
        }
    } else if b[0] == PAGE_TAG {
        if b.len() >= 2 && byte_page(b[1]) is Some {
            spec_parse(
                b.skip(2),
                ParsedFields { label: acc.label, mode: acc.mode, page: byte_page(b[1]) },
            )
        } else {
            Option::None
        }
    } else if b[0] == LABEL_TAG {
        if valid_utf8(b.skip(1)) {
            Option::Some(
                ParsedFields {
                    label: Option::Some(decode_utf8(b.skip(1))),
                    mode: acc.mode,
                    page: acc.page,
                },
            )
        } else {
            Option::None
        }
    } else {
        Option::None
    }
}

/// The durable part of the state that loading must produce; the
/// transient `value` is reset separately and is therefore not a field.
pub struct LoadedState {
    pub label: Seq<char>,
    pub mode: Mode,
    pub page: Page,
}

/// What loading yields when no usable blob exists: the compiled-in
/// defaults.
pub open spec fn default_loaded() -> LoadedState {
    LoadedState { label: default_label(), mode: Mode::NOTES, page: Page::NONE }
}

/// The load contract over mathematical values: an absent blob and a
/// malformed blob both yield the defaults; a decodable blob yields its
/// fields, each absent record replaced by that field's default.
pub open spec fn spec_load(blob: Option<Seq<u8>>) -> LoadedState {
    match blob {
        Option::None => default_loaded(),
        Option::Some(b) => match spec_parse(b, empty_fields()) {
            Option::None => default_loaded(),
            Option::Some(f) => LoadedState {
                label: match f.label {
                    Option::Some(l) => l,
                    Option::None => default_label(),
                },
                mode: match f.mode {
                    Option::Some(m) => m,
                    Option::None => Mode::NOTES,
                },
                page: match f.page {
                    Option::Some(p) => p,
                    Option::None => Page::NONE,
                },
            },
        },
    }
}

/// The exact blob that saving a state with the given durable fields
/// writes: one record per durable field, the label last.
pub open spec fn spec_save(label: Seq<char>, m: Mode, p: Page) -> Seq<u8> {
    seq![MODE_TAG, mode_byte(m), PAGE_TAG, page_byte(p), LABEL_TAG] + encode_utf8(label)
}

/// The blob's view, when one is present.
pub open spec fn blob_view(blob: Option<Vec<u8>>) -> Option<Seq<u8>> {
    match blob {
        Option::Some(b) => Option::Some(b@),
        Option::None => Option::None,
    }
}

/// Relies on `String::from_utf8`: it succeeds exactly when the bytes are
/// a UTF-8 encoding, and then returns the string those bytes encode.
#[verifier::external_body]
fn decode_label(bytes: Vec<u8>) -> (r: Option<String>)
    ensures
        match r {
            Option::Some(s) => valid_utf8(bytes@) && s@ == decode_utf8(bytes@),
            Option::None => !valid_utf8(bytes@),
        },
{
    match String::from_utf8(bytes) {
        Ok(s) => Some(s),
        Err(_) => None,
    }
}

/// The view of the decode accumulator held at run time.
spec fn acc_of(label: Option<String>, mode: Option<Mode>, page: Option<Page>) -> ParsedFields {
    ParsedFields {
        label: match label {
            Option::Some(s) => Option::Some(s@),
            Option::None => Option::None,
        },
        mode: mode,
        page: page,
    }
}

impl ClassNotes {
    /// Serialize the durable fields (`mode`, `page`, `label`); the
    /// transient `value` is omitted by design, so that it restarts at
    /// its compiled-in default.
    pub fn save(&self) -> (r: Vec<u8>)
        ensures
            r@ == spec_save(self.label@, self.mode, self.page),
    {
        let mut out: Vec<u8> = Vec::new();
        out.push(MODE_TAG);
        out.push(
            match self.mode {
                Mode::NONE => 0u8,
                Mode::NOTES => 1u8,
            },
        );
        out.push(PAGE_TAG);
        out.push(
            match self.page {
                Page::NONE => 0u8,
                Page::KthSmallestIntro => 1u8,
            },
        );
        out.push(LABEL_TAG);
        let mut lb: Vec<u8> = self.label.as_str().as_bytes_vec();
        out.append(&mut lb);
        proof {
            assert(out@ =~= spec_save(self.label@, self.mode, self.page));
        }
        out
    }

    /// Build the startup state from the persisted blob, if one exists.
    ///
    /// This never fails: an absent or malformed blob falls back to the
    /// default state, a decodable blob default-fills whatever records it
    /// lacks, and the transient `value` is forced to its default
    /// whatever the blob held.
    pub fn load(blob: Option<Vec<u8>>) -> (r: ClassNotes)
        ensures
            r.value_tenths == DEFAULT_VALUE_TENTHS,
            r.label@ == spec_load(blob_view(blob)).label,
            r.mode == spec_load(blob_view(blob)).mode,
            r.page == spec_load(blob_view(blob)).page,
    {
        match blob {
            Option::None => ClassNotes::default(),
            Option::Some(b) => Self::load_bytes(b),
        }
    }

    /// Decode one blob, merging its records over the defaults.
    fn load_bytes(b: Vec<u8>) -> (r: ClassNotes)
        ensures
            r.value_tenths == DEFAULT_VALUE_TENTHS,
            r.label@ == spec_load(Option::Some(b@)).label,
            r.mode == spec_load(Option::Some(b@)).mode,
            r.page == spec_load(Option::Some(b@)).page,
    {
        let mut i: usize = 0;
        let mut label: Option<String> = None;
        let mut mode_f: Option<Mode> = None;
        let mut page_f: Option<Page> = None;

        proof {
            assert(b@.skip(0) =~= b@);
            assert(acc_of(label, mode_f, page_f) == empty_fields());
        }
        while i < b.len()
            invariant
                i <= b@.len(),
                spec_parse(b@.skip(i as int), acc_of(label, mode_f, page_f)) == spec_parse(
                    b@,
                    empty_fields(),
                ),
            decreases b@.len() - i,
        {
            let ghost suffix = b@.skip(i as int);
            let ghost acc = acc_of(label, mode_f, page_f);
            let tag = b[i];
            if tag == MODE_TAG {
                if i + 1 < b.len() {
                    let vb = b[i + 1];
                    let m2 = if vb == 0 {
                        Mode::NONE
                    } else if vb == 1 {
                        Mode::NOTES
                    } else {
                        proof {
                            assert(suffix.len() >= 2 && suffix[0] == MODE_TAG && suffix[1] == vb);
                            assert(spec_parse(suffix, acc) is None);
                        }
                        return ClassNotes::default();
                    };
                    proof {
                        assert(suffix.len() >= 2 && suffix[0] == MODE_TAG && suffix[1] == vb);
                        assert(suffix.skip(2) =~= b@.skip(i + 2));
                        assert(byte_mode(vb) == Option::Some(m2));
                        assert(spec_parse(suffix, acc) == spec_parse(
                            b@.skip(i + 2),
                            acc_of(label, Option::Some(m2), page_f),
                        ));
                    }
                    mode_f = Some(m2);
                    i = i + 2;
                } else {
                    proof {
                        assert(suffix.len() == 1 && suffix[0] == MODE_TAG);
                        assert(spec_parse(suffix, acc) is None);
                    }
                    return ClassNotes::default();
                }
            } else if tag == PAGE_TAG {
                if i + 1 < b.len() {
                    let vb = b[i + 1];
                    let p2 = if vb == 0 {
                        Page::NONE
                    } else if vb == 1 {
                        Page::KthSmallestIntro
                    } else {
                        proof {
                            assert(suffix.len() >= 2 && suffix[0] == PAGE_TAG && suffix[1] == vb);
                            assert(spec_parse(suffix, acc) is None);
                        }
                        return ClassNotes::default();
                    };
                    proof {
                        assert(suffix.len() >= 2 && suffix[0] == PAGE_TAG && suffix[1] == vb);
                        assert(suffix.skip(2) =~= b@.skip(i + 2));
                        assert(byte_page(vb) == Option::Some(p2));
                        assert(spec_parse(suffix, acc) == spec_parse(
                            b@.skip(i + 2),
                            acc_of(label, mode_f, Option::Some(p2)),
                        ));
                    }
                    page_f = Some(p2);
                    i = i + 2;
                } else {
                    proof {
                        assert(suffix.len() == 1 && suffix[0] == PAGE_TAG);
                        assert(spec_parse(suffix, acc) is None);
                    }
                    return ClassNotes::default();
                }
            } else if tag == LABEL_TAG {
                let mut payload: Vec<u8> = Vec::new();
                let mut j = i + 1;
                while j < b.len()
                    invariant
                        i < b@.len(),
                        i + 1 <= j <= b@.len(),
                        payload@ == b@.subrange(i + 1, j as int),
                    decreases b@.len() - j,
                {
                    payload.push(b[j]);
                    j = j + 1;
                }
                proof {
                    assert(payload@ =~= suffix.skip(1));
                }
                match decode_label(payload) {
                    Option::Some(s) => {
                        proof {
                            assert(suffix[0] == LABEL_TAG && valid_utf8(suffix.skip(1)));
                            assert(spec_parse(suffix, acc) == Option::Some(
                                ParsedFields {
                                    label: Option::Some(decode_utf8(suffix.skip(1))),
                                    mode: mode_f,
                                    page: page_f,
                                },
                            ));
                            assert(b@.skip(b@.len() as int) =~= Seq::<u8>::empty());
                        }
                        label = Some(s);
                        i = b.len();
                    },
                    Option::None => {
                        proof {
                            assert(suffix[0] == LABEL_TAG && !valid_utf8(suffix.skip(1)));
                            assert(spec_parse(suffix, acc) is None);
                        }
                        return ClassNotes::default();
                    },
                }
            } else {
                proof {
                    assert(suffix[0] == tag);
                    assert(spec_parse(suffix, acc) is None);
                }
                return ClassNotes::default();
            }
        }
        proof {
            assert(b@.skip(i as int) =~= Seq::<u8>::empty());
            assert(spec_parse(b@, empty_fields()) == Option::Some(acc_of(label, mode_f, page_f)));
        }
        let lab = match label {
            Some(s) => s,
            None => "Hello World!".to_owned(),
        };
        let md = match mode_f {
            Some(m) => m,
            None => Mode::NOTES,
        };
        let pg = match page_f {
            Some(p) => p,
            None => Page::NONE,
        };
        ClassNotes { label: lab, value_tenths: DEFAULT_VALUE_TENTHS, mode: md, page: pg }
    }
}

/// Default-safety law: with no persisted blob, loading yields the
/// compiled-in defaults.
pub proof fn lemma_load_absent_blob_is_default()
    ensures
        spec_load(Option::None) == default_loaded(),
{
}

/// Round-trip durability law: loading the exact blob that saving wrote
/// restores `label`, `mode` and `page`; `load` resets the transient
/// `value` separately, whatever the saved state held.
pub proof fn lemma_save_load_round_trip(label: Seq<char>, m: Mode, p: Page)
    ensures
        spec_load(Option::Some(spec_save(label, m, p))) == (LoadedState {
            label: label,
            mode: m,
            page: p,
        }),
{
    let b = spec_save(label, m, p);
    let enc = encode_utf8(label);
    encode_utf8_valid_utf8(label);
    encode_utf8_decode_utf8(label);
    let a0 = empty_fields();
    let a1 = ParsedFields { label: a0.label, mode: Option::Some(m), page: a0.page };
    let a2 = ParsedFields { label: a0.label, mode: Option::Some(m), page: Option::Some(p) };
    assert(b.len() == 5 + enc.len());
    assert(b[0] == MODE_TAG && b[1] == mode_byte(m));
    assert(byte_mode(mode_byte(m)) == Option::Some(m));
    assert(byte_page(page_byte(p)) == Option::Some(p));
    let s1 = b.skip(2);
    assert(s1[0] == PAGE_TAG && s1[1] == page_byte(p));
    assert(spec_parse(b, a0) == spec_parse(s1, a1));
    let s2 = b.skip(4);
    assert(s1.skip(2) =~= s2);
    assert(s2[0] == LABEL_TAG);
    assert(spec_parse(s1, a1) == spec_parse(s2, a2));
    assert(s2.skip(1) =~= enc);
    assert(spec_parse(s2, a2) == Option::Some(
        ParsedFields { label: Option::Some(label), mode: Option::Some(m), page: Option::Some(p) },
    ));
}

/// Forward-compatibility law: a blob that decodes but lacks a field's
/// record yields that field at its compiled-in default, rather than
/// failing.
pub proof fn lemma_missing_record_defaults(b: Seq<u8>)
    ensures
        match spec_parse(b, empty_fields()) {
            Option::Some(f) => {
                &&& (f.label is None ==> spec_load(Option::Some(b)).label == default_label())
                &&& (f.mode is None ==> spec_load(Option::Some(b)).mode == Mode::NOTES)
                &&& (f.page is None ==> spec_load(Option::Some(b)).page == Page::NONE)
            },
            Option::None => true,
        },
{
}

/// Corruption-safety law: a blob that does not decode loads as the full
/// default state; `load` itself is total, so a malformed blob can never
/// fail the process.
pub proof fn lemma_corrupt_blob_is_default(b: Seq<u8>)
    requires
        spec_parse(b, empty_fields()) is None,
    ensures
        spec_load(Option::Some(b)) == default_loaded(),
{
}

} // verus!
