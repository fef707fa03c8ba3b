//! CUDA hardware acceleration: what the machine offers (read from
//! `nvidia-smi` and FFmpeg's codec lists), the acceleration level to use, and
//! the FFmpeg arguments and filter chains for it.

use vstd::prelude::*;
use crate::error::{Error, ErrorKind};
use crate::text::{
    all_ascii, ascii_lower, chars_of, concat, is_u32_text, lines, lines_of, owned, parse_u32,
    seq_contains, seq_starts_with, split_char, split_str, str_contains, str_eq, str_starts_with,
    string_of, strings_view, to_lowercase, trim, trim_seq, u32_text_value, unicode_lowercase,
};

verus! {

/// A GPU as `nvidia-smi` lists it.
#[derive(Debug, Clone, PartialEq, Eq)]
pub struct GpuDevice {
    pub index: u32,
    pub name: String,
    pub memory_mb: Option<u32>,
    pub compute_capability: Option<String>,
}

/// What the machine offers for hardware video processing.
#[derive(Debug, Clone, PartialEq, Eq)]
pub struct HardwareCapabilities {
    pub cuda_available: bool,
    pub nvenc_available: bool,
    pub nvdec_available: bool,
    pub cuda_version: Option<String>,
    pub gpu_devices: Vec<GpuDevice>,
    pub supported_codecs: Vec<String>,
}

/// How much of the pipeline runs on the GPU.
#[derive(Debug, Clone, Copy, PartialEq, Eq, Structural)]
pub enum HardwareAcceleration {
    Disabled,
    CudaDecode,
    CudaDecodeEncode,
    CudaFilter,
    CudaFull,
}

/// The level a lower-case name selects; unknown names disable acceleration.
pub open spec fn acceleration_from_lower(t: Seq<char>) -> HardwareAcceleration {
    if t == "none"@ || t == "disabled"@ {
        HardwareAcceleration::Disabled
    } else if t == "decode"@ {
        HardwareAcceleration::CudaDecode
    } else if t == "encode"@ {
        HardwareAcceleration::CudaDecodeEncode
    } else if t == "filter"@ {
        HardwareAcceleration::CudaFilter
    } else if t == "full"@ {
        HardwareAcceleration::CudaFull
    } else {
        HardwareAcceleration::Disabled
    }
}

/// The name of a level.
pub open spec fn acceleration_name(a: HardwareAcceleration) -> Seq<char> {
    match a {
        HardwareAcceleration::Disabled => "none"@,
        HardwareAcceleration::CudaDecode => "decode"@,
        HardwareAcceleration::CudaDecodeEncode => "encode"@,
        HardwareAcceleration::CudaFilter => "filter"@,
        HardwareAcceleration::CudaFull => "full"@,
    }
}

pub open spec fn decodes_on_gpu(a: HardwareAcceleration) -> bool {
    a == HardwareAcceleration::CudaDecode || a == HardwareAcceleration::CudaDecodeEncode || a
        == HardwareAcceleration::CudaFull
}

pub open spec fn encodes_on_gpu(a: HardwareAcceleration) -> bool {
    a == HardwareAcceleration::CudaDecodeEncode || a == HardwareAcceleration::CudaFull
}

pub open spec fn filters_on_gpu(a: HardwareAcceleration) -> bool {
    a == HardwareAcceleration::CudaFilter || a == HardwareAcceleration::CudaFull
}

impl HardwareAcceleration {
    /// Reads a level name in any letter case.
    pub fn from_str(s: &str) -> (r: Self)
        ensures
            r == acceleration_from_lower(unicode_lowercase(s@)),
            all_ascii(s@) ==> r == acceleration_from_lower(ascii_lower(s@)),
    {
        let l = to_lowercase(s);
        let t = l.as_str();
        if str_eq(t, "none") || str_eq(t, "disabled") {
            HardwareAcceleration::Disabled
        } else if str_eq(t, "decode") {
            HardwareAcceleration::CudaDecode
        } else if str_eq(t, "encode") {
            HardwareAcceleration::CudaDecodeEncode
        } else if str_eq(t, "filter") {
            HardwareAcceleration::CudaFilter
        } else if str_eq(t, "full") {
            HardwareAcceleration::CudaFull
        } else {
            HardwareAcceleration::Disabled
        }
    }

    pub fn as_str(&self) -> (r: &'static str)
        ensures
            r@ == acceleration_name(*self),
    {
        match self {
            HardwareAcceleration::Disabled => "none",
            HardwareAcceleration::CudaDecode => "decode",
            HardwareAcceleration::CudaDecodeEncode => "encode",
            HardwareAcceleration::CudaFilter => "filter",
            HardwareAcceleration::CudaFull => "full",
        }
    }

    pub fn uses_decode_acceleration(&self) -> (r: bool)
        ensures
            r == decodes_on_gpu(*self),
    {
        matches!(
            self,
            HardwareAcceleration::CudaDecode | HardwareAcceleration::CudaDecodeEncode
                | HardwareAcceleration::CudaFull
        )
    }

    pub fn uses_encode_acceleration(&self) -> (r: bool)
        ensures
            r == encodes_on_gpu(*self),
    {
        matches!(self, HardwareAcceleration::CudaDecodeEncode | HardwareAcceleration::CudaFull)
    }

    pub fn uses_filter_acceleration(&self) -> (r: bool)
        ensures
            r == filters_on_gpu(*self),
    {
        matches!(self, HardwareAcceleration::CudaFilter | HardwareAcceleration::CudaFull)
    }
}

/// Reading back a level's name gives the level.
pub proof fn law_acceleration_name_round_trip(a: HardwareAcceleration)
    ensures
        all_ascii(acceleration_name(a)),
        acceleration_from_lower(ascii_lower(acceleration_name(a))) == a,
{
    reveal_strlit("none");
    reveal_strlit("disabled");
    reveal_strlit("decode");
    reveal_strlit("encode");
    reveal_strlit("filter");
    reveal_strlit("full");
    let p = acceleration_name(a);
    assert(ascii_lower(p) =~= p);
    assert("decode"@[0] != "encode"@[0] && "decode"@[0] != "filter"@[0] && "encode"@[0]
        != "filter"@[0]);
    assert("none"@[0] != "full"@[0]);
}

/// What `nvidia-smi` reports.
#[derive(Debug, Clone, PartialEq, Eq)]
pub struct CudaSystemInfo {
    pub version: Option<String>,
    pub devices: Vec<GpuDevice>,
}

/// What FFmpeg's codec lists offer.
#[derive(Debug, Clone, PartialEq, Eq)]
pub struct FfmpegHardwareInfo {
    pub nvenc_available: bool,
    pub nvdec_available: bool,
    pub supported_codecs: Vec<String>,
}

/// The trimmed comma-separated fields of a line.
pub open spec fn smi_fields(l: Seq<char>) -> Seq<Seq<char>> {
    split_char(l, ',').map_values(|f: Seq<char>| trim_seq(f))
}

/// A `u32` field, where it parses.
pub open spec fn u32_field(f: Seq<char>) -> Option<u32> {
    if is_u32_text(f) {
        Some(u32_text_value(f) as u32)
    } else {
        None
    }
}

/// The device a line of `index,name,memory,driver` describes (index 0
/// where it does not parse), where it has at least four fields.
pub open spec fn smi_device(l: Seq<char>) -> Option<(u32, Seq<char>, Option<u32>)> {
    let f = smi_fields(l);
    if f.len() >= 4 {
        Some(
            (
                match u32_field(f[0]) {
                    Some(v) => v,
                    None => 0u32,
                },
                f[1],
                u32_field(f[2]),
            ),
        )
    } else {
        None
    }
}

/// The devices of a list of lines.
pub open spec fn smi_devices(ls: Seq<Seq<char>>) -> Seq<(u32, Seq<char>, Option<u32>)>
    decreases ls.len(),
{
    if ls.len() == 0 {
        Seq::empty()
    } else {
        match smi_device(ls.last()) {
            Some(d) => smi_devices(ls.drop_last()).push(d),
            None => smi_devices(ls.drop_last()),
        }
    }
}

/// The driver version: the fourth field of the first device line.
pub open spec fn smi_version(ls: Seq<Seq<char>>) -> Option<Seq<char>>
    decreases ls.len(),
{
    if ls.len() == 0 {
        None
    } else {
        match smi_version(ls.drop_last()) {
            Some(v) => Some(v),
            None => if smi_fields(ls.last()).len() >= 4 {
                Some(smi_fields(ls.last())[3])
            } else {
                None
            },
        }
    }
}

/// A GPU as plain values.
pub open spec fn device_view(d: GpuDevice) -> (u32, Seq<char>, Option<u32>) {
    (d.index, d.name@, d.memory_mb)
}

/// The characters of an optional string.
pub open spec fn opt_string_text(o: Option<String>) -> Option<Seq<char>> {
    match o {
        Some(s) => Some(s@),
        None => None,
    }
}

/// The codecs FFmpeg offers on the GPU, in the order decoders then
/// encoders, H.264 before HEVC.
pub open spec fn gpu_codecs(decoders: Seq<char>, encoders: Seq<char>) -> Seq<Seq<char>> {
    let nvdec = seq_contains(decoders, "h264_nvdec"@) || seq_contains(decoders, "hevc_nvdec"@);
    let nvenc = seq_contains(encoders, "h264_nvenc"@) || seq_contains(encoders, "hevc_nvenc"@);
    let a = if nvdec && seq_contains(decoders, "h264_nvdec"@) {
        seq!["h264_nvdec"@]
    } else {
        Seq::empty()
    };
    let b = if nvdec && seq_contains(decoders, "hevc_nvdec"@) {
        a.push("hevc_nvdec"@)
    } else {
        a
    };
    let c = if nvenc && seq_contains(encoders, "h264_nvenc"@) {
        b.push("h264_nvenc"@)
    } else {
        b
    };
    if nvenc && seq_contains(encoders, "hevc_nvenc"@) {
        c.push("hevc_nvenc"@)
    } else {
        c
    }
}

/// The FFmpeg arguments for decoding on the GPU.
pub open spec fn decode_args(input_codec: Option<Seq<char>>) -> Seq<Seq<char>> {
    let generic = seq!["-hwaccel"@, "cuda"@];
    match input_codec {
        Some(c) => {
            let l = unicode_lowercase(c);
            if l == "h264"@ {
                seq![
                    "-hwaccel"@,
                    "cuda"@,
                    "-hwaccel_output_format"@,
                    "cuda"@,
                    "-c:v"@,
                    "h264_nvdec"@,
                ]
            } else if l == "hevc"@ || l == "h265"@ {
                seq![
                    "-hwaccel"@,
                    "cuda"@,
                    "-hwaccel_output_format"@,
                    "cuda"@,
                    "-c:v"@,
                    "hevc_nvdec"@,
                ]
            } else {
                generic
            }
        },
        None => generic,
    }
}

/// The GPU counterpart of a software filter.
pub open spec fn cuda_filter(f: Seq<char>) -> Seq<char> {
    if seq_starts_with(f, "scale="@) {
        "scale_cuda="@ + f.subrange(6, f.len() as int)
    } else if seq_starts_with(f, "yadif"@) {
        "yadif_cuda"@
    } else {
        f
    }
}

/// A filter chain moved to the GPU: upload, the filters (GPU versions where
/// there are any), and, where there was a filter, download to NV12.
pub open spec fn cuda_filter_chain(fs: Seq<Seq<char>>) -> Seq<Seq<char>> {
    let body = seq!["hwupload_cuda"@] + fs.map_values(|f: Seq<char>| cuda_filter(f));
    if fs.len() > 0 {
        body + seq!["hwdownload"@, "format=nv12"@]
    } else {
        body
    }
}

/// Runs filters, decodes and encodes on a CUDA GPU where one is available.
pub struct CudaAccelerator {
    pub capabilities: HardwareCapabilities,
    pub fallback_to_software: bool,
}

impl CudaAccelerator {
    /// An accelerator over capabilities detected on the machine.
    pub fn new(fallback_to_software: bool, capabilities: HardwareCapabilities) -> (r: Self)
        ensures
            r.capabilities == capabilities,
            r.fallback_to_software == fallback_to_software,
    {
        CudaAccelerator { capabilities, fallback_to_software }
    }

    /// What `nvidia-smi --query-gpu=index,name,memory.total,driver_version
    /// --format=csv,noheader,nounits` reported: `None` where it could not
    /// run or failed, else its standard output.
    pub fn check_cuda_with_nvidia_smi(output: Option<&str>) -> (r: Result<CudaSystemInfo, Error>)
        ensures
            match output {
                None => r matches Err(e) && e@ == (
                    ErrorKind::Hardware,
                    "CUDA not available - nvidia-smi not found or failed"@,
                ),
                Some(o) => r matches Ok(info) && opt_string_text(info.version) == smi_version(
                    lines_of(o@),
                ) && info.devices@.map_values(|d: GpuDevice| device_view(d)) == smi_devices(
                    lines_of(o@),
                ) && forall|i: int|
                    0 <= i < info.devices@.len() ==> (#[trigger] info.devices@[i]).compute_capability
                        is None,
            },
    {
        let stdout = match output {
            Some(o) => o,
            None => {
                return Err(
                    Error::hardware(owned("CUDA not available - nvidia-smi not found or failed")),
                );
            },
        };
        let ls = lines(stdout);
        let ghost lv = lines_of(stdout@);
        let mut devices: Vec<GpuDevice> = Vec::new();
        let mut driver_version: Option<String> = None;
        let mut i: usize = 0;
        while i < ls.len()
            invariant
                i <= ls@.len(),
                strings_view(ls@) == lv,
                devices@.map_values(|d: GpuDevice| device_view(d)) == smi_devices(
                    lv.subrange(0, i as int),
                ),
                opt_string_text(driver_version) == smi_version(lv.subrange(0, i as int)),
                forall|j: int|
                    0 <= j < devices@.len() ==> (#[trigger] devices@[j]).compute_capability is None,
            decreases ls.len() - i,
        {
            let ghost prefix = lv.subrange(0, i as int);
            let ghost next = lv.subrange(0, i + 1);
            assert(next.drop_last() =~= prefix);
            assert(next.last() == ls@[i as int]@);
            let raw_parts = split_str(ls[i].as_str(), ',');
            let mut parts: Vec<String> = Vec::new();
            let mut k: usize = 0;
            while k < raw_parts.len()
                invariant
                    k <= raw_parts@.len(),
                    parts@.len() == k,
                    forall|j: int|
                        0 <= j < k ==> (#[trigger] parts@[j])@ == trim_seq(raw_parts@[j]@),
                decreases raw_parts.len() - k,
            {
                parts.push(trim(raw_parts[k].as_str()));
                k = k + 1;
            }
            proof {
                let f = smi_fields(ls@[i as int]@);
                assert(strings_view(raw_parts@) == split_char(ls@[i as int]@, ','));
                assert forall|j: int| 0 <= j < parts@.len() implies #[trigger] parts@[j]@ == f[j] by {
                    assert(strings_view(raw_parts@)[j] == raw_parts@[j]@);
                }
                assert(f.len() == parts@.len());
            }
            if parts.len() >= 4 {
                let index = match parse_u32(parts[0].as_str()) {
                    Some(v) => v,
                    None => 0,
                };
                let name = parts[1].clone();
                let memory_mb = parse_u32(parts[2].as_str());
                if driver_version.is_none() {
                    driver_version = Some(parts[3].clone());
                }
                let ghost before = devices@;
                devices.push(GpuDevice { index, name, memory_mb, compute_capability: None });
                assert(devices@.map_values(|d: GpuDevice| device_view(d)) =~= before.map_values(
                    |d: GpuDevice| device_view(d),
                ).push(device_view(devices@.last())));
            }
            i = i + 1;
        }
        assert(lv.subrange(0, ls@.len() as int) =~= lv);
        Ok(CudaSystemInfo { version: driver_version, devices })
    }

    /// What FFmpeg's decoder and encoder lists offer on the GPU.
    pub fn check_ffmpeg_hardware_support(decoders_text: &str, encoders_text: &str) -> (r:
        FfmpegHardwareInfo)
        ensures
            r.nvdec_available == (seq_contains(decoders_text@, "h264_nvdec"@) || seq_contains(
                decoders_text@,
                "hevc_nvdec"@,
            )),
            r.nvenc_available == (seq_contains(encoders_text@, "h264_nvenc"@) || seq_contains(
                encoders_text@,
                "hevc_nvenc"@,
            )),
            strings_view(r.supported_codecs@) == gpu_codecs(decoders_text@, encoders_text@),
    {
        let dec_h264 = str_contains(decoders_text, "h264_nvdec");
        let dec_hevc = str_contains(decoders_text, "hevc_nvdec");
        let enc_h264 = str_contains(encoders_text, "h264_nvenc");
        let enc_hevc = str_contains(encoders_text, "hevc_nvenc");
        let nvdec_available = dec_h264 || dec_hevc;
        let nvenc_available = enc_h264 || enc_hevc;
        let mut supported_codecs: Vec<String> = Vec::new();
        if nvdec_available {
            if dec_h264 {
                supported_codecs.push(owned("h264_nvdec"));
            }
            if dec_hevc {
                supported_codecs.push(owned("hevc_nvdec"));
            }
        }
        if nvenc_available {
            if enc_h264 {
                supported_codecs.push(owned("h264_nvenc"));
            }
            if enc_hevc {
                supported_codecs.push(owned("hevc_nvenc"));
            }
        }
        assert(strings_view(supported_codecs@) =~= gpu_codecs(decoders_text@, encoders_text@));
        FfmpegHardwareInfo { nvenc_available, nvdec_available, supported_codecs }
    }

    /// The machine's capabilities from what `nvidia-smi` (where it ran) and
    /// FFmpeg reported.
    pub fn detect_hardware_capabilities(
        cuda_info: Option<CudaSystemInfo>,
        ffmpeg_info: FfmpegHardwareInfo,
    ) -> (r: HardwareCapabilities)
        ensures
            r.cuda_available == cuda_info is Some,
            cuda_info matches Some(c) ==> r.cuda_version == c.version && r.gpu_devices
                == c.devices,
            cuda_info is None ==> r.cuda_version is None && r.gpu_devices@.len() == 0,
            r.nvenc_available == ffmpeg_info.nvenc_available,
            r.nvdec_available == ffmpeg_info.nvdec_available,
            r.supported_codecs == ffmpeg_info.supported_codecs,
    {
        let (cuda_available, cuda_version, gpu_devices) = match cuda_info {
            Some(c) => (true, c.version, c.devices),
            None => (false, None, Vec::new()),
        };
        HardwareCapabilities {
            cuda_available,
            nvenc_available: ffmpeg_info.nvenc_available,
            nvdec_available: ffmpeg_info.nvdec_available,
            cuda_version,
            gpu_devices,
            supported_codecs: ffmpeg_info.supported_codecs,
        }
    }

    pub fn get_capabilities(&self) -> (r: &HardwareCapabilities)
        ensures
            *r == self.capabilities,
    {
        &self.capabilities
    }

    /// FFmpeg input arguments for the level: an error where CUDA is missing
    /// and software fallback is off; none for a disabled level; the decode
    /// arguments where the level decodes on the GPU and NVDEC is there.
    pub fn build_hardware_args(
        &self,
        acceleration_level: HardwareAcceleration,
        input_codec: Option<&str>,
    ) -> (r: Result<Vec<String>, Error>)
        ensures
            !self.capabilities.cuda_available && !self.fallback_to_software ==> (r matches Err(e)
                && e@ == (ErrorKind::Hardware, "CUDA not available and fallback disabled"@)),
            self.capabilities.cuda_available || self.fallback_to_software ==> (r matches Ok(a)
                && strings_view(a@) == (if decodes_on_gpu(acceleration_level)
                && self.capabilities.nvdec_available {
                decode_args(
                    match input_codec {
                        Some(c) => Some(c@),
                        None => None,
                    },
                )
            } else {
                Seq::<Seq<char>>::empty()
            })),
    {
        if !self.capabilities.cuda_available && !self.fallback_to_software {
            return Err(Error::hardware(owned("CUDA not available and fallback disabled")));
        }
        if acceleration_level == HardwareAcceleration::Disabled {
            let v: Vec<String> = Vec::new();
            assert(strings_view(v@) =~= Seq::<Seq<char>>::empty());
            return Ok(v);
        }
        let mut args: Vec<String> = Vec::new();
        if acceleration_level.uses_decode_acceleration() && self.capabilities.nvdec_available {
            args.push(owned("-hwaccel"));
            args.push(owned("cuda"));
            let mut decoder: Option<&str> = None;
            if let Some(codec) = input_codec {
                let l = to_lowercase(codec);
                if str_eq(l.as_str(), "h264") {
                    decoder = Some("h264_nvdec");
                } else if str_eq(l.as_str(), "hevc") || str_eq(l.as_str(), "h265") {
                    decoder = Some("hevc_nvdec");
                }
            }
            if let Some(d) = decoder {
                args.push(owned("-hwaccel_output_format"));
                args.push(owned("cuda"));
                args.push(owned("-c:v"));
                args.push(owned(d));
            }
            assert(strings_view(args@) =~= decode_args(
                match input_codec {
                    Some(c) => Some(c@),
                    None => None,
                },
            ));
        } else {
            assert(strings_view(args@) =~= Seq::<Seq<char>>::empty());
        }
        Ok(args)
    }

    /// The filter chain run on the GPU where CUDA is available; the chain
    /// unchanged otherwise.
    pub fn build_cuda_filter_chain(&self, base_filters: &Vec<String>) -> (r: Result<
        Vec<String>,
        Error,
    >)
        ensures
            r matches Ok(c) && strings_view(c@) == (if self.capabilities.cuda_available {
                cuda_filter_chain(strings_view(base_filters@))
            } else {
                strings_view(base_filters@)
            }),
    {
        if !self.capabilities.cuda_available {
            let mut copy: Vec<String> = Vec::new();
            let mut i: usize = 0;
            while i < base_filters.len()
                invariant
                    i <= base_filters@.len(),
                    copy@.len() == i,
                    forall|j: int| 0 <= j < i ==> (#[trigger] copy@[j])@ == base_filters@[j]@,
                decreases base_filters.len() - i,
            {
                copy.push(base_filters[i].clone());
                i = i + 1;
            }
            assert(strings_view(copy@) =~= strings_view(base_filters@));
            return Ok(copy);
        }
        let ghost fs = strings_view(base_filters@);
        let mut cuda_filters: Vec<String> = Vec::new();
        cuda_filters.push(owned("hwupload_cuda"));
        let mut i: usize = 0;
        while i < base_filters.len()
            invariant
                i <= base_filters@.len(),
                fs == strings_view(base_filters@),
                cuda_filters@.len() == i + 1,
                cuda_filters@[0]@ == "hwupload_cuda"@,
                forall|j: int| 0 <= j < i ==> (#[trigger] cuda_filters@[j + 1])@ == cuda_filter(fs[j]),
            decreases base_filters.len() - i,
        {
            let f = base_filters[i].as_str();
            assert(fs[i as int] == f@);
            let converted = if str_starts_with(f, "scale=") {
                let v = chars_of(f);
                let mut rest: Vec<char> = Vec::new();
                let mut k: usize = 6;
                proof { reveal_strlit("scale="); }
                while k < v.len()
                    invariant
                        6 <= k <= v@.len(),
                        rest@ == v@.subrange(6, k as int),
                    decreases v.len() - k,
                {
                    rest.push(v[k]);
                    k = k + 1;
                    assert(rest@ =~= v@.subrange(6, k as int));
                }
                let tail = string_of(&rest);
                concat("scale_cuda=", tail.as_str())
            } else if str_starts_with(f, "yadif") {
                owned("yadif_cuda")
            } else {
                owned(f)
            };
            assert(converted@ == cuda_filter(f@));
            cuda_filters.push(converted);
            i = i + 1;
        }
        if base_filters.len() > 0 {
            cuda_filters.push(owned("hwdownload"));
            cuda_filters.push(owned("format=nv12"));
        }
        proof {
            let body = seq!["hwupload_cuda"@] + fs.map_values(|f: Seq<char>| cuda_filter(f));
            assert forall|j: int| 0 <= j < body.len() implies #[trigger] strings_view(cuda_filters@)[j] == body[j] by {
                if j > 0 {
                    assert(cuda_filters@[(j - 1) + 1] == cuda_filters@[j]);
                }
            }
            assert(strings_view(cuda_filters@) =~= cuda_filter_chain(fs));
        }
        Ok(cuda_filters)
    }

    /// Full acceleration where both NVENC and NVDEC are there, decode only
    /// where NVDEC alone is, none otherwise or without CUDA.
    pub fn get_optimal_acceleration_level(&self) -> (r: HardwareAcceleration)
        ensures
            r == (if !self.capabilities.cuda_available {
                HardwareAcceleration::Disabled
            } else if self.capabilities.nvenc_available && self.capabilities.nvdec_available {
                HardwareAcceleration::CudaFull
            } else if self.capabilities.nvdec_available {
                HardwareAcceleration::CudaDecode
            } else {
                HardwareAcceleration::Disabled
            }),
    {
        if !self.capabilities.cuda_available {
            return HardwareAcceleration::Disabled;
        }
        if self.capabilities.nvenc_available && self.capabilities.nvdec_available {
            HardwareAcceleration::CudaFull
        } else if self.capabilities.nvdec_available {
            HardwareAcceleration::CudaDecode
        } else {
            HardwareAcceleration::Disabled
        }
    }
}

impl Default for CudaAccelerator {
    fn default() -> (r: Self)
        ensures
            !r.capabilities.cuda_available,
            !r.capabilities.nvenc_available,
            !r.capabilities.nvdec_available,
            r.capabilities.cuda_version is None,
            r.capabilities.gpu_devices@.len() == 0,
            r.capabilities.supported_codecs@.len() == 0,
            r.fallback_to_software,
    {
        CudaAccelerator {
            capabilities: HardwareCapabilities {
                cuda_available: false,
                nvenc_available: false,
                nvdec_available: false,
                cuda_version: None,
                gpu_devices: Vec::new(),
                supported_codecs: Vec::new(),
            },
            fallback_to_software: true,
        }
    }
}

} // verus!
