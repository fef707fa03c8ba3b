//! FFmpeg video filter chains: deinterlacing, denoising and cropping, in
//! that order, and the arguments that apply them.

use vstd::prelude::*;
use crate::config::types::FiltersConfig;
use crate::analysis::crop::{crop_text, CropValues};
use crate::error::{Error, ErrorKind};
use crate::text::{
    concat, concat3, decimal, is_digit, is_u32_text, join_strings, lemma_decimal_u32_text,
    lemma_split_after_sep, lemma_split_plain, owned, parse_u32, seq_join, seq_starts_with,
    split_char, split_str, str_eq, str_starts_with, strings_view, u32_text_value,
};

verus! {

/// Filters applied one after another.
#[derive(Debug, Clone)]
pub struct FilterChain {
    filters: Vec<String>,
}

impl View for FilterChain {
    type V = Seq<Seq<char>>;

    closed spec fn view(&self) -> Seq<Seq<char>> {
        strings_view(self.filters@)
    }
}

/// Some filter crops (`crop=...`).
pub open spec fn has_crop(fs: Seq<Seq<char>>) -> bool {
    exists|i: int| 0 <= i < fs.len() && seq_starts_with(#[trigger] fs[i], "crop="@)
}

/// The FFmpeg arguments that apply a chain: none for an empty chain; a
/// `-filter_complex` graph from `[0:v]` to `[v]` where the chain crops;
/// `-vf` otherwise.
pub open spec fn filter_args(fs: Seq<Seq<char>>) -> Seq<Seq<char>> {
    if fs.len() == 0 {
        Seq::empty()
    } else if has_crop(fs) {
        seq!["-filter_complex"@, "[0:v]"@ + seq_join(fs, ","@) + "[v]"@]
    } else {
        seq!["-vf"@, seq_join(fs, ","@)]
    }
}

impl FilterChain {
    pub fn new() -> (r: Self)
        ensures
            r@ == Seq::<Seq<char>>::empty(),
    {
        let r = FilterChain { filters: Vec::new() };
        assert(r@ =~= Seq::<Seq<char>>::empty());
        r
    }

    /// Appends a filter.
    pub fn add_filter(&mut self, filter: String)
        ensures
            final(self)@ == old(self)@.push(filter@),
    {
        self.filters.push(filter);
        assert(self@ =~= old(self)@.push(filter@));
    }

    /// The FFmpeg arguments that apply the chain.
    pub fn build_ffmpeg_args(&self) -> (r: Vec<String>)
        ensures
            strings_view(r@) == filter_args(self@),
    {
        if self.filters.len() == 0 {
            let v: Vec<String> = Vec::new();
            assert(strings_view(v@) =~= filter_args(self@));
            return v;
        }
        let mut crop = false;
        let mut i: usize = 0;
        while i < self.filters.len()
            invariant
                i <= self.filters@.len(),
                crop == exists|j: int| 0 <= j < i && seq_starts_with(#[trigger] self@[j], "crop="@),
            decreases self.filters.len() - i,
        {
            assert(self@[i as int] == self.filters@[i as int]@);
            if str_starts_with(self.filters[i].as_str(), "crop=") {
                crop = true;
            }
            i = i + 1;
            assert(crop == exists|j: int| 0 <= j < i && seq_starts_with(#[trigger] self@[j], "crop="@))
                by {
                if crop {
                    let w = choose|j: int| 0 <= j < i && seq_starts_with(#[trigger] self@[j], "crop="@);
                    if !(0 <= w < i && seq_starts_with(self@[w], "crop="@)) {
                        assert(seq_starts_with(self@[i - 1], "crop="@));
                    }
                }
            }
        }
        let joined = join_strings(&self.filters, ",");
        let mut v: Vec<String> = Vec::new();
        if crop {
            v.push(owned("-filter_complex"));
            v.push(concat3("[0:v]", joined.as_str(), "[v]"));
        } else {
            v.push(owned("-vf"));
            v.push(joined);
        }
        assert(strings_view(v@) =~= filter_args(self@));
        v
    }

    pub fn is_empty(&self) -> (r: bool)
        ensures
            r == (self@.len() == 0),
    {
        self.filters.len() == 0
    }

    /// The chain as text: the filters joined by `,`, or `None` where there
    /// are none.
    pub fn to_string(&self) -> (r: String)
        ensures
            r@ == (if self@.len() == 0 {
                "None"@
            } else {
                seq_join(self@, ","@)
            }),
    {
        if self.filters.len() == 0 {
            owned("None")
        } else {
            join_strings(&self.filters, ",")
        }
    }
}

impl Default for FilterChain {
    fn default() -> (r: Self)
        ensures
            r@ == Seq::<Seq<char>>::empty(),
    {
        Self::new()
    }
}

/// The NNEDI `field` value a field mode selects (`a` for unknown modes).
pub open spec fn nnedi_field_value(mode: Seq<char>) -> Seq<char> {
    if mode == "af"@ {
        "-2"@
    } else if mode == "a"@ {
        "-1"@
    } else if mode == "t"@ {
        "0"@
    } else if mode == "b"@ {
        "1"@
    } else if mode == "tf"@ {
        "2"@
    } else if mode == "bf"@ {
        "3"@
    } else {
        "-1"@
    }
}

/// The filter of a non-NNEDI deinterlacing method.
pub open spec fn fallback_deinterlace(method: Seq<char>) -> core::result::Result<
    Seq<char>,
    (ErrorKind, Seq<char>),
> {
    if method == "yadif"@ {
        Ok("yadif=mode=send_field:parity=auto:deint=interlaced"@)
    } else if method == "bwdif"@ {
        Ok("bwdif=mode=send_field:parity=auto:deint=interlaced"@)
    } else {
        Err((ErrorKind::Encoding, "Unsupported deinterlace method: "@ + method))
    }
}

/// The deinterlacing filter: NNEDI where it is the primary method and its
/// weights file is configured and present, the fallback method where NNEDI
/// is primary but cannot run, the primary method otherwise.
pub open spec fn deinterlace_filter(
    filters: FiltersConfig,
    nnedi_weights: Option<Seq<char>>,
    weights_available: bool,
) -> core::result::Result<Seq<char>, (ErrorKind, Seq<char>)> {
    let d = filters.deinterlace;
    if d.primary_method@ == "nnedi"@ {
        if nnedi_weights is Some && weights_available {
            Ok("nnedi=weights="@ + nnedi_weights.unwrap() + ":field="@ + nnedi_field_value(
                d.nnedi_settings.field@,
            ))
        } else {
            fallback_deinterlace(d.fallback_method@)
        }
    } else {
        fallback_deinterlace(d.primary_method@)
    }
}

/// A deinterlacing method that is supported gives a filter named by the
/// method itself: `yadif` and `bwdif` are supported, and the filter text
/// begins with the method's name and `=`. The chain's deinterlacing filter
/// for a primary method other than NNEDI is that method's filter; with
/// NNEDI primary and its weights present, it is NNEDI with those weights.
pub proof fn law_deinterlace_filter_is_named_by_method(
    method: Seq<char>,
    filters: FiltersConfig,
    nnedi_weights: Option<Seq<char>>,
    weights_available: bool,
)
    ensures
        (method == "yadif"@ || method == "bwdif"@) <==> fallback_deinterlace(method) is Ok,
        fallback_deinterlace(method) matches Ok(f) ==> f.len() > method.len() && f.subrange(
            0,
            method.len() as int,
        ) == method && f[method.len() as int] == '=',
        filters.deinterlace.primary_method@ != "nnedi"@ ==> deinterlace_filter(
            filters,
            nnedi_weights,
            weights_available,
        ) == fallback_deinterlace(filters.deinterlace.primary_method@),
        nnedi_weights matches Some(w) ==> (filters.deinterlace.primary_method@ == "nnedi"@
            && weights_available ==> (deinterlace_filter(filters, nnedi_weights, weights_available) matches Ok(f)
            && f.subrange(0, 14) == "nnedi=weights="@ && f.subrange(14, 14 + w.len() as int) == w)),
{
    reveal_strlit("nnedi=weights=");
    if filters.deinterlace.primary_method@ == "nnedi"@ && weights_available {
        if let Some(w) = nnedi_weights {
            let f = "nnedi=weights="@ + w + ":field="@ + nnedi_field_value(
                filters.deinterlace.nnedi_settings.field@,
            );
            assert(f.subrange(0, 14) =~= "nnedi=weights="@);
            assert(f.subrange(14, 14 + w.len() as int) =~= w);
        }
    }
    reveal_strlit("yadif");
    reveal_strlit("bwdif");
    reveal_strlit("yadif=mode=send_field:parity=auto:deint=interlaced");
    reveal_strlit("bwdif=mode=send_field:parity=auto:deint=interlaced");
    let y = "yadif=mode=send_field:parity=auto:deint=interlaced"@;
    let b = "bwdif=mode=send_field:parity=auto:deint=interlaced"@;
    if method == "yadif"@ {
        assert(y.subrange(0, 5) =~= method);
    }
    if method == "bwdif"@ {
        assert(b.subrange(0, 5) =~= method);
    }
}

/// The denoising filter: `filter=params`.
pub open spec fn denoise_filter(filters: FiltersConfig) -> Seq<char> {
    filters.denoise.filter@ + "="@ + filters.denoise.params@
}

/// A result of the library with its error taken by its view.
pub open spec fn text_result_view(r: core::result::Result<String, Error>) -> core::result::Result<
    Seq<char>,
    (ErrorKind, Seq<char>),
> {
    match r {
        Ok(s) => Ok(s@),
        Err(e) => Err(e@),
    }
}

/// Builds a filter chain from the filter settings.
pub struct FilterBuilder {
    pub filters: FiltersConfig,
    /// Where the NNEDI weights file is configured to be.
    pub nnedi_weights: Option<String>,
    /// Whether that file exists.
    pub weights_available: bool,
    pub chain: FilterChain,
}

impl FilterBuilder {
    pub fn new(filters: FiltersConfig, nnedi_weights: Option<String>, weights_available: bool) -> (r:
        Self)
        ensures
            r.filters == filters,
            r.nnedi_weights == nnedi_weights,
            r.weights_available == weights_available,
            r.chain@ == Seq::<Seq<char>>::empty(),
    {
        FilterBuilder { filters, nnedi_weights, weights_available, chain: FilterChain::new() }
    }

    /// The chain in processing order: deinterlacing, denoising, cropping
    /// (`crop=<value>`), each where asked for.
    pub fn build_complete_chain(self, deinterlace: bool, denoise: bool, crop: Option<&str>) -> (r:
        Result<FilterChain, Error>)
        ensures
            ({
                let di = deinterlace_filter(
                    self.filters,
                    match self.nnedi_weights {
                        Some(w) => Some(w@),
                        None => None,
                    },
                    self.weights_available,
                );
                let a = if deinterlace && di is Ok {
                    self.chain@.push(di->Ok_0)
                } else {
                    self.chain@
                };
                let b = if denoise {
                    a.push(denoise_filter(self.filters))
                } else {
                    a
                };
                let c = match crop {
                    Some(v) => b.push("crop="@ + v@),
                    None => b,
                };
                if deinterlace && di is Err {
                    r matches Err(e) && e@ == di->Err_0
                } else {
                    r matches Ok(chain) && chain@ == c
                }
            }),
    {
        let mut b = self;
        if deinterlace {
            let filter = b.build_deinterlace_filter();
            match filter {
                Ok(f) => b.chain.add_filter(f),
                Err(e) => {
                    return Err(e);
                },
            }
        }
        if denoise {
            let filter = b.build_denoise_filter();
            b.chain.add_filter(filter);
        }
        if let Some(crop_value) = crop {
            b.chain.add_filter(concat("crop=", crop_value));
        }
        Ok(b.chain)
    }

    /// Adds the deinterlacing filter where `enabled`.
    pub fn with_deinterlace(self, enabled: bool) -> (r: Result<Self, Error>)
        ensures
            ({
                let di = deinterlace_filter(
                    self.filters,
                    match self.nnedi_weights {
                        Some(w) => Some(w@),
                        None => None,
                    },
                    self.weights_available,
                );
                if enabled && di is Err {
                    r matches Err(e) && e@ == di->Err_0
                } else {
                    r matches Ok(b) && b.filters == self.filters && b.nnedi_weights
                        == self.nnedi_weights && b.weights_available == self.weights_available
                        && b.chain@ == (if enabled {
                        self.chain@.push(di->Ok_0)
                    } else {
                        self.chain@
                    })
                }
            }),
    {
        let mut b = self;
        if enabled {
            match b.build_deinterlace_filter() {
                Ok(f) => b.chain.add_filter(f),
                Err(e) => {
                    return Err(e);
                },
            }
        }
        Ok(b)
    }

    /// Adds the denoising filter where `enabled`.
    pub fn with_denoise(self, enabled: bool) -> (r: Self)
        ensures
            r.filters == self.filters,
            r.nnedi_weights == self.nnedi_weights,
            r.weights_available == self.weights_available,
            r.chain@ == (if enabled {
                self.chain@.push(denoise_filter(self.filters))
            } else {
                self.chain@
            }),
    {
        let mut b = self;
        if enabled {
            let filter = b.build_denoise_filter();
            b.chain.add_filter(filter);
        }
        b
    }

    /// Adds `crop=<value>` where a crop is given.
    pub fn with_crop(self, crop: Option<&str>) -> (r: Result<Self, Error>)
        ensures
            r matches Ok(b) && b.filters == self.filters && b.nnedi_weights == self.nnedi_weights
                && b.weights_available == self.weights_available && b.chain@ == match crop {
                Some(v) => self.chain@.push("crop="@ + v@),
                None => self.chain@,
            },
    {
        let mut b = self;
        if let Some(crop_value) = crop {
            b.chain.add_filter(concat("crop=", crop_value));
        }
        Ok(b)
    }

    pub fn build(self) -> (r: FilterChain)
        ensures
            r@ == self.chain@,
    {
        self.chain
    }

    fn nnedi_field(mode: &str) -> (r: &'static str)
        ensures
            r@ == nnedi_field_value(mode@),
    {
        if str_eq(mode, "af") {
            "-2"
        } else if str_eq(mode, "a") {
            "-1"
        } else if str_eq(mode, "t") {
            "0"
        } else if str_eq(mode, "b") {
            "1"
        } else if str_eq(mode, "tf") {
            "2"
        } else if str_eq(mode, "bf") {
            "3"
        } else {
            "-1"
        }
    }

    /// The deinterlacing filter.
    pub fn build_deinterlace_filter(&self) -> (r: Result<String, Error>)
        ensures
            text_result_view(r) == deinterlace_filter(
                self.filters,
                match self.nnedi_weights {
                    Some(w) => Some(w@),
                    None => None,
                },
                self.weights_available,
            ),
    {
        let d = &self.filters.deinterlace;
        if str_eq(d.primary_method.as_str(), "nnedi") {
            match &self.nnedi_weights {
                Some(w) => {
                    if self.weights_available {
                        let field = Self::nnedi_field(d.nnedi_settings.field.as_str());
                        let head = concat("nnedi=weights=", w.as_str());
                        Ok(concat3(head.as_str(), ":field=", field))
                    } else {
                        Self::build_fallback_deinterlace_filter(d.fallback_method.as_str())
                    }
                },
                None => Self::build_fallback_deinterlace_filter(d.fallback_method.as_str()),
            }
        } else {
            Self::build_fallback_deinterlace_filter(d.primary_method.as_str())
        }
    }

    fn build_fallback_deinterlace_filter(method: &str) -> (r: Result<String, Error>)
        ensures
            text_result_view(r) == fallback_deinterlace(method@),
    {
        if str_eq(method, "yadif") {
            Ok(owned("yadif=mode=send_field:parity=auto:deint=interlaced"))
        } else if str_eq(method, "bwdif") {
            Ok(owned("bwdif=mode=send_field:parity=auto:deint=interlaced"))
        } else {
            Err(Error::encoding(concat("Unsupported deinterlace method: ", method)))
        }
    }

    fn build_denoise_filter(&self) -> (r: String)
        ensures
            r@ == denoise_filter(self.filters),
    {
        concat3(self.filters.denoise.filter.as_str(), "=", self.filters.denoise.params.as_str())
    }
}

/// `width:height:x:y` with four `u32` fields.
pub open spec fn is_crop_text(crop: Seq<char>) -> bool {
    let parts = split_char(crop, ':');
    parts.len() == 4 && forall|i: int| 0 <= i < 4 ==> is_u32_text(#[trigger] parts[i])
}

/// A crop's text is well formed exactly when its four pieces parse.
pub proof fn lemma_crop_parts(crop: Seq<char>, parts: Seq<String>)
    requires
        strings_view(parts) == split_char(crop, ':'),
        parts.len() == 4,
    ensures
        is_crop_text(crop) == forall|i: int| 0 <= i < parts.len() ==> is_u32_text(#[trigger] parts[i]@),
{
    assert forall|i: int| 0 <= i < 4 implies #[trigger] split_char(crop, ':')[i] == parts[i]@ by {
        assert(strings_view(parts)[i] == parts[i]@);
    }
    if is_crop_text(crop) {
        assert forall|i: int| 0 <= i < parts.len() implies is_u32_text(#[trigger] parts[i]@) by {
            assert(is_u32_text(split_char(crop, ':')[i]));
        }
    }
    if forall|i: int| 0 <= i < parts.len() ==> is_u32_text(#[trigger] parts[i]@) {
        assert forall|i: int| 0 <= i < 4 implies is_u32_text(#[trigger] split_char(crop, ':')[i]) by {
            assert(is_u32_text(parts[i]@));
        }
    }
}

/// The notation of any crop is a well-formed crop: it splits at `:` into
/// the decimal width, height and offsets, each read back as its number.
pub proof fn law_crop_text_is_valid(c: CropValues)
    ensures
        is_crop_text(crop_text(c)),
        split_char(crop_text(c), ':') == seq![
            decimal(c.width as nat),
            decimal(c.height as nat),
            decimal(c.x as nat),
            decimal(c.y as nat),
        ],
        u32_text_value(split_char(crop_text(c), ':')[0]) == c.width,
        u32_text_value(split_char(crop_text(c), ':')[1]) == c.height,
        u32_text_value(split_char(crop_text(c), ':')[2]) == c.x,
        u32_text_value(split_char(crop_text(c), ':')[3]) == c.y,
{
    reveal_strlit(":");
    assert(":"@ =~= seq![':']);
    let dw = decimal(c.width as nat);
    let dh = decimal(c.height as nat);
    let dx = decimal(c.x as nat);
    let dy = decimal(c.y as nat);
    lemma_decimal_u32_text(c.width as nat);
    lemma_decimal_u32_text(c.height as nat);
    lemma_decimal_u32_text(c.x as nat);
    lemma_decimal_u32_text(c.y as nat);
    assert(!is_digit(':'));
    let a1 = dw + seq![':'] + dh;
    let a2 = a1 + seq![':'] + dx;
    let a3 = a2 + seq![':'] + dy;
    lemma_split_plain(dw, ':');
    lemma_split_after_sep(dw, dh, ':');
    lemma_split_after_sep(a1, dx, ':');
    lemma_split_after_sep(a2, dy, ':');
    assert(crop_text(c) =~= a3);
    let parts = split_char(crop_text(c), ':');
    assert(parts =~= seq![dw, dh, dx, dy]);
    assert forall|i: int| 0 <= i < 4 implies is_u32_text(#[trigger] parts[i]) by {
        if i == 0 {
        } else if i == 1 {
        } else if i == 2 {
        } else {
        }
    }
}

/// All pieces parse as `u32`.
pub fn all_u32(parts: &Vec<String>) -> (r: bool)
    ensures
        r == forall|i: int| 0 <= i < parts@.len() ==> is_u32_text(#[trigger] parts@[i]@),
{
    let mut i: usize = 0;
    while i < parts.len()
        invariant
            i <= parts@.len(),
            forall|j: int| 0 <= j < i ==> is_u32_text(#[trigger] parts@[j]@),
        decreases parts.len() - i,
    {
        if parse_u32(parts[i].as_str()).is_none() {
            return false;
        }
        i = i + 1;
    }
    true
}

/// Checks a crop given as `width:height:x:y`.
pub fn validate_crop_format(crop: &str) -> (r: Result<(), Error>)
    ensures
        split_char(crop@, ':').len() != 4 ==> (r matches Err(e) && e@ == (
            ErrorKind::Encoding,
            "Crop format must be width:height:x:y"@,
        )),
        split_char(crop@, ':').len() == 4 && !is_crop_text(crop@) ==> (r matches Err(e) && e@ == (
            ErrorKind::Encoding,
            "All crop values must be positive integers"@,
        )),
        is_crop_text(crop@) ==> r is Ok,
{
    let parts = split_str(crop, ':');
    if parts.len() != 4 {
        return Err(Error::encoding(owned("Crop format must be width:height:x:y")));
    }
    let ok = all_u32(&parts);
    proof { lemma_crop_parts(crop@, parts@); }
    if !ok {
        return Err(Error::encoding(owned("All crop values must be positive integers")));
    }
    Ok(())
}

} // verus!
