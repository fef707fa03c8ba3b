//! Transfer-function tables and EOTF names.

use vstd::prelude::*;
use crate::hdr::types::TransferFunction;
use crate::text::{all_ascii, ascii_lower, decimal, owned, push_decimal, str_eq, to_lowercase, unicode_lowercase};

verus! {

/// Whether the transfer function is an HDR one (PQ or HLG).
pub open spec fn transfer_is_hdr(tf: TransferFunction) -> bool {
    tf == TransferFunction::Smpte2084 || tf == TransferFunction::AribStdB67
}

pub open spec fn recommended_depth(tf: TransferFunction) -> u8 {
    match tf {
        TransferFunction::Bt709 => 8,
        TransferFunction::Bt2020_12 => 12,
        _ => 10,
    }
}

pub open spec fn minimum_depth(tf: TransferFunction) -> u8 {
    match tf {
        TransferFunction::Bt709 => 8,
        TransferFunction::Bt2020_12 => 12,
        _ => 10,
    }
}

/// All supported transfer functions, in declaration order.
pub open spec fn all_transfer_functions() -> Seq<TransferFunction> {
    seq![
        TransferFunction::Bt709,
        TransferFunction::Smpte2084,
        TransferFunction::AribStdB67,
        TransferFunction::Bt2020_10,
        TransferFunction::Bt2020_12,
    ]
}

/// Quantization approach that suits a transfer function.
#[derive(Debug, Clone, Copy, PartialEq, Eq, Structural)]
pub enum QuantizationStrategy {
    Uniform,
    Perceptual,
    Hybrid,
}

impl TransferFunction {
    pub fn all() -> (r: Vec<TransferFunction>)
        ensures
            r@ == all_transfer_functions(),
    {
        let r = vec![
            TransferFunction::Bt709,
            TransferFunction::Smpte2084,
            TransferFunction::AribStdB67,
            TransferFunction::Bt2020_10,
            TransferFunction::Bt2020_12,
        ];
        assert(r@ =~= all_transfer_functions());
        r
    }

    /// The HDR transfer functions, in the order of `all`.
    pub fn hdr_functions() -> (r: Vec<TransferFunction>)
        ensures
            r@ == all_transfer_functions().filter(|tf: TransferFunction| transfer_is_hdr(tf)),
    {
        let all = Self::all();
        let mut r: Vec<TransferFunction> = Vec::new();
        let mut i: usize = 0;
        while i < all.len()
            invariant
                all@ == all_transfer_functions(),
                i <= all.len(),
                r@ == all@.subrange(0, i as int).filter(|tf: TransferFunction| transfer_is_hdr(tf)),
            decreases all.len() - i,
        {
            let tf = all[i];
            proof {
                reveal_with_fuel(Seq::filter, 1);
                assert(all@.subrange(0, i + 1).drop_last() =~= all@.subrange(0, i as int));
            }
            if tf.is_hdr() {
                r.push(tf);
            }
            i = i + 1;
        }
        assert(all@.subrange(0, all@.len() as int) =~= all@);
        r
    }

    pub fn is_hdr(&self) -> (r: bool)
        ensures
            r == transfer_is_hdr(*self),
    {
        match self {
            TransferFunction::Smpte2084 | TransferFunction::AribStdB67 => true,
            _ => false,
        }
    }

    pub fn recommended_bit_depth(&self) -> (r: u8)
        ensures
            r == recommended_depth(*self),
    {
        match self {
            TransferFunction::Bt709 => 8,
            TransferFunction::Smpte2084 => 10,
            TransferFunction::AribStdB67 => 10,
            TransferFunction::Bt2020_10 => 10,
            TransferFunction::Bt2020_12 => 12,
        }
    }

    pub fn minimum_bit_depth(&self) -> (r: u8)
        ensures
            r == minimum_depth(*self),
    {
        match self {
            TransferFunction::Bt709 => 8,
            TransferFunction::Smpte2084 => 10,
            TransferFunction::AribStdB67 => 10,
            TransferFunction::Bt2020_10 => 10,
            TransferFunction::Bt2020_12 => 12,
        }
    }

    pub fn is_bit_depth_sufficient(&self, bit_depth: u8) -> (r: bool)
        ensures
            r == (bit_depth >= minimum_depth(*self)),
    {
        bit_depth >= self.minimum_bit_depth()
    }
}

/// Transfer function named by a lower-cased EOTF name.
pub open spec fn transfer_from_eotf_lower(t: Seq<char>) -> Option<TransferFunction> {
    if t == "bt1886"@ || t == "rec1886"@ {
        Some(TransferFunction::Bt709)
    } else if t == "pq"@ || t == "smpte2084"@ || t == "st2084"@ {
        Some(TransferFunction::Smpte2084)
    } else if t == "hlg"@ || t == "arib-std-b67"@ {
        Some(TransferFunction::AribStdB67)
    } else if t == "bt2020"@ {
        Some(TransferFunction::Bt2020_10)
    } else {
        None
    }
}

pub open spec fn eotf_name(tf: TransferFunction) -> Seq<char> {
    match tf {
        TransferFunction::Bt709 => "bt1886"@,
        TransferFunction::Smpte2084 => "pq"@,
        TransferFunction::AribStdB67 => "hlg"@,
        TransferFunction::Bt2020_10 => "bt2020-10"@,
        TransferFunction::Bt2020_12 => "bt2020-12"@,
    }
}

/// Conversions between transfer functions and EOTF names.
pub struct TransferFunctionUtils;

impl TransferFunctionUtils {
    pub fn from_eotf_name(eotf_name: &str) -> (r: Option<TransferFunction>)
        ensures
            r == transfer_from_eotf_lower(unicode_lowercase(eotf_name@)),
            all_ascii(eotf_name@) ==> r == transfer_from_eotf_lower(ascii_lower(eotf_name@)),
    {
        let l = to_lowercase(eotf_name);
        let t = l.as_str();
        if str_eq(t, "bt1886") || str_eq(t, "rec1886") {
            Some(TransferFunction::Bt709)
        } else if str_eq(t, "pq") || str_eq(t, "smpte2084") || str_eq(t, "st2084") {
            Some(TransferFunction::Smpte2084)
        } else if str_eq(t, "hlg") || str_eq(t, "arib-std-b67") {
            Some(TransferFunction::AribStdB67)
        } else if str_eq(t, "bt2020") {
            Some(TransferFunction::Bt2020_10)
        } else {
            None
        }
    }

    /// The bit-depth part of the encoding check: the depth must reach the
    /// transfer function's minimum. (The luminance part compares floating
    /// point values and is left to the caller.)
    pub fn validate_for_encoding(tf: TransferFunction, bit_depth: u8) -> (r: Result<(), String>)
        ensures
            bit_depth >= minimum_depth(tf) <==> r is Ok,
            r matches Err(m) ==> m@ == "Bit depth "@ + decimal(bit_depth as nat) + " insufficient for "@
                + crate::color::transfer_function_debug(tf) + ", minimum required: "@ + decimal(
                minimum_depth(tf) as nat,
            ),
    {
        if tf.is_bit_depth_sufficient(bit_depth) {
            return Ok(());
        }
        let mut m = owned("Bit depth ");
        push_decimal(&mut m, bit_depth as u64);
        m.append(" insufficient for ");
        m.append(crate::color::transfer_function_debug_name(tf));
        m.append(", minimum required: ");
        push_decimal(&mut m, tf.minimum_bit_depth() as u64);
        Err(m)
    }

    pub fn to_eotf_name(tf: TransferFunction) -> (r: &'static str)
        ensures
            r@ == eotf_name(tf),
    {
        match tf {
            TransferFunction::Bt709 => "bt1886",
            TransferFunction::Smpte2084 => "pq",
            TransferFunction::AribStdB67 => "hlg",
            TransferFunction::Bt2020_10 => "bt2020-10",
            TransferFunction::Bt2020_12 => "bt2020-12",
        }
    }
}

/// Every transfer function's recommended bit depth is sufficient for it.
pub proof fn law_recommended_depth_sufficient(tf: TransferFunction)
    ensures
        recommended_depth(tf) >= minimum_depth(tf),
{
}

/// Reading back the EOTF name of BT.709, PQ or HLG gives the same transfer
/// function; the BT.2020 names do not read back.
pub proof fn law_eotf_name_round_trip(tf: TransferFunction)
    requires
        tf == TransferFunction::Bt709 || tf == TransferFunction::Smpte2084 || tf
            == TransferFunction::AribStdB67,
    ensures
        all_ascii(eotf_name(tf)),
        transfer_from_eotf_lower(ascii_lower(eotf_name(tf))) == Some(tf),
{
    reveal_strlit("bt1886");
    reveal_strlit("rec1886");
    reveal_strlit("pq");
    reveal_strlit("smpte2084");
    reveal_strlit("st2084");
    reveal_strlit("hlg");
    let p = eotf_name(tf);
    assert(ascii_lower(p) =~= p);
}

} // verus!
