//! Version triples, the aggregated report, the compatibility policy, and
//! the report's canonical text.

use vstd::prelude::*;

use crate::render::{dec_chars, u32_to_dec};

verus! {

/// A decoded library version: three components, each in `[0, 255]` when it
/// comes out of `FFmpegVersionsInfo::decode_version`.
#[derive(Clone, Copy, Debug)]
pub struct FFmpegVersion {
    pub major: u32,
    pub minor: u32,
    pub micro: u32,
}

/// The text of a version triple: `major.minor.micro` in decimal.
pub open spec fn version_chars(v: FFmpegVersion) -> Seq<char> {
    dec_chars(v.major as nat) + "."@ + dec_chars(v.minor as nat) + "."@ + dec_chars(
        v.micro as nat,
    )
}

impl FFmpegVersion {
    /// Renders this version as `major.minor.micro`.
    pub fn render(&self) -> (r: String)
        ensures
            r@ == version_chars(*self),
    {
        let mut s = u32_to_dec(self.major);
        s.append(".");
        let minor = u32_to_dec(self.minor);
        s.append(minor.as_str());
        s.append(".");
        let micro = u32_to_dec(self.micro);
        s.append(micro.as_str());
        s
    }
}

/// The least major release line known to be mutually compatible.
pub const MIN_COMPATIBLE_MAJOR: u32 = 58;

/// Raw inputs to a report, as the native boundary hands them over: one
/// packed 32-bit integer for the mandatory library, one for each enabled
/// optional library (absent when the capability is disabled), and an
/// optional free-form product descriptor.
#[derive(Clone, Debug)]
pub struct RawVersions {
    pub avutil: u32,
    pub avcodec: Option<u32>,
    pub avformat: Option<u32>,
    pub avdevice: Option<u32>,
    pub avfilter: Option<u32>,
    pub swscale: Option<u32>,
    pub swresample: Option<u32>,
    pub avresample: Option<u32>,
    pub postproc: Option<u32>,
    pub product: Option<String>,
}

/// The decoded versions of the configured libraries. The mandatory library
/// is always present; every other entry exists only when the corresponding
/// capability was enabled in the build that queried the native boundary.
/// Immutable once constructed.
#[derive(Clone, Debug)]
pub struct FFmpegVersionsInfo {
    pub avutil: FFmpegVersion,
    pub avcodec: Option<FFmpegVersion>,
    pub avformat: Option<FFmpegVersion>,
    pub avdevice: Option<FFmpegVersion>,
    pub avfilter: Option<FFmpegVersion>,
    pub swscale: Option<FFmpegVersion>,
    pub swresample: Option<FFmpegVersion>,
    pub avresample: Option<FFmpegVersion>,
    pub postproc: Option<FFmpegVersion>,
    pub ffmpeg_version: String,
}

/// The version triple packed into a raw 32-bit version integer: the major
/// number in bits 16..24, the minor in bits 8..16, the micro in bits 0..8.
pub open spec fn decoded(raw: u32) -> FFmpegVersion {
    FFmpegVersion { major: (raw >> 16) & 0xFF, minor: (raw >> 8) & 0xFF, micro: raw & 0xFF }
}

/// `decoded`, lifted over an optional raw integer.
pub open spec fn decoded_opt(raw: Option<u32>) -> Option<FFmpegVersion> {
    match raw {
        Some(r) => Some(decoded(r)),
        None => None,
    }
}

/// The product string of a report: the descriptor when the native boundary
/// supplied one, the sentinel `"Unknown"` otherwise.
pub open spec fn product_chars(product: Option<String>) -> Seq<char> {
    match product {
        Some(s) => s@,
        None => "Unknown"@,
    }
}

/// Whether an optional library entry meets the compatibility threshold.
/// An absent entry imposes no constraint.
pub open spec fn opt_compatible(v: Option<FFmpegVersion>) -> bool {
    match v {
        Some(v) => v.major >= MIN_COMPATIBLE_MAJOR,
        None => true,
    }
}

/// Whether every library present in the report meets the compatibility
/// threshold; the mandatory library always counts.
pub open spec fn consistent(r: FFmpegVersionsInfo) -> bool {
    &&& r.avutil.major >= MIN_COMPATIBLE_MAJOR
    &&& opt_compatible(r.avcodec)
    &&& opt_compatible(r.avformat)
    &&& opt_compatible(r.avdevice)
    &&& opt_compatible(r.avfilter)
    &&& opt_compatible(r.swscale)
    &&& opt_compatible(r.swresample)
    &&& opt_compatible(r.avresample)
    &&& opt_compatible(r.postproc)
}

impl FFmpegVersionsInfo {
    /// Unpacks a raw 32-bit version integer into its three components.
    /// Every input decodes; each component is mechanically bounded to
    /// `[0, 255]` by its 8-bit field.
    pub fn decode_version(version_int: u32) -> (v: FFmpegVersion)
        ensures
            v == decoded(version_int),
            v.major == (version_int >> 16) & 0xFF,
            v.minor == (version_int >> 8) & 0xFF,
            v.micro == version_int & 0xFF,
            v.major <= 255,
            v.minor <= 255,
            v.micro <= 255,
    {
        let major = (version_int >> 16) & 0xFF;
        let minor = (version_int >> 8) & 0xFF;
        let micro = version_int & 0xFF;
        proof {
            assert((version_int >> 16) & 0xFF <= 255 && (version_int >> 8) & 0xFF <= 255
                && version_int & 0xFF <= 255) by (bit_vector);
        }
        FFmpegVersion { major, minor, micro }
    }

    /// Builds a report from the raw values the native boundary returned:
    /// decodes the mandatory library and each present optional library,
    /// and falls back to the `"Unknown"` sentinel when no product
    /// descriptor was supplied.
    pub fn new(raw: RawVersions) -> (r: Self)
        ensures
            r.avutil == decoded(raw.avutil),
            r.avcodec == decoded_opt(raw.avcodec),
            r.avformat == decoded_opt(raw.avformat),
            r.avdevice == decoded_opt(raw.avdevice),
            r.avfilter == decoded_opt(raw.avfilter),
            r.swscale == decoded_opt(raw.swscale),
            r.swresample == decoded_opt(raw.swresample),
            r.avresample == decoded_opt(raw.avresample),
            r.postproc == decoded_opt(raw.postproc),
            r.ffmpeg_version@ == product_chars(raw.product),
    {
        Self {
            avutil: Self::decode_version(raw.avutil),
            avcodec: Self::decode_opt(raw.avcodec),
            avformat: Self::decode_opt(raw.avformat),
            avdevice: Self::decode_opt(raw.avdevice),
            avfilter: Self::decode_opt(raw.avfilter),
            swscale: Self::decode_opt(raw.swscale),
            swresample: Self::decode_opt(raw.swresample),
            avresample: Self::decode_opt(raw.avresample),
            postproc: Self::decode_opt(raw.postproc),
            ffmpeg_version: Self::product_or_unknown(raw.product),
        }
    }

    /// Decodes an optional raw version integer; absence stays absence.
    pub fn decode_opt(raw: Option<u32>) -> (v: Option<FFmpegVersion>)
        ensures
            v == decoded_opt(raw),
    {
        match raw {
            Some(r) => Some(Self::decode_version(r)),
            None => None,
        }
    }

    /// The product descriptor when one was supplied, the `"Unknown"`
    /// sentinel otherwise.
    pub fn product_or_unknown(product: Option<String>) -> (s: String)
        ensures
            s@ == product_chars(product),
    {
        match product {
            Some(s) => s,
            None => String::from_str("Unknown"),
        }
    }

    /// Whether every library present in this report meets the
    /// compatibility threshold (major version at least
    /// `MIN_COMPATIBLE_MAJOR`). A single incompatible present library
    /// fails the whole check; absent libraries impose no constraint.
    pub fn is_consistent(&self) -> (c: bool)
        ensures
            c == consistent(*self),
    {
        let mut c = self.avutil.major >= MIN_COMPATIBLE_MAJOR;
        c = c && Self::opt_ok(&self.avcodec);
        c = c && Self::opt_ok(&self.avformat);
        c = c && Self::opt_ok(&self.avdevice);
        c = c && Self::opt_ok(&self.avfilter);
        c = c && Self::opt_ok(&self.swscale);
        c = c && Self::opt_ok(&self.swresample);
        c = c && Self::opt_ok(&self.avresample);
        c = c && Self::opt_ok(&self.postproc);
        c
    }

    /// Whether an optional library entry meets the compatibility
    /// threshold; an absent entry does.
    fn opt_ok(v: &Option<FFmpegVersion>) -> (c: bool)
        ensures
            c == opt_compatible(*v),
    {
        match v {
            Some(v) => v.major >= MIN_COMPATIBLE_MAJOR,
            None => true,
        }
    }
}

/// The text of one optional library entry: nothing when the library is
/// absent, the given prefix followed by the version triple when present.
pub open spec fn opt_segment(v: Option<FFmpegVersion>, prefix: Seq<char>) -> Seq<char> {
    match v {
        Some(v) => prefix + version_chars(v),
        None => Seq::empty(),
    }
}

/// The opening of the report text: the product string and the mandatory
/// library, always present and always first.
pub open spec fn header_chars(r: FFmpegVersionsInfo) -> Seq<char> {
    "ffmpeg="@ + r.ffmpeg_version@ + ", libavutil="@ + version_chars(r.avutil)
}

/// The canonical report text: the header, then one segment per present
/// optional library in declared order. An absent library contributes no
/// segment.
pub open spec fn report_chars(r: FFmpegVersionsInfo) -> Seq<char> {
    header_chars(r) + opt_segment(r.avcodec, ", libavcodec="@) + opt_segment(
        r.avformat,
        ", libavformat="@,
    ) + opt_segment(r.avdevice, ", libavdevice="@) + opt_segment(r.avfilter, ", libavfilter="@)
        + opt_segment(r.swscale, ", libswscale="@) + opt_segment(r.swresample, ", libswresample="@)
        + opt_segment(r.avresample, ", libavresample="@) + opt_segment(
        r.postproc,
        ", libpostproc="@,
    )
}

impl FFmpegVersionsInfo {
    /// Renders the report by appending each piece to one growing string.
    /// Emits exactly the canonical text, so it agrees with
    /// `display_string` on every report.
    pub fn full_string(&self) -> (r: String)
        ensures
            r@ == report_chars(*self),
    {
        let mut out = String::from_str("ffmpeg=");
        out.append(self.ffmpeg_version.as_str());
        out.append(", libavutil=");
        let avutil = self.avutil.render();
        out.append(avutil.as_str());
        Self::append_segment(&mut out, &self.avcodec, ", libavcodec=");
        Self::append_segment(&mut out, &self.avformat, ", libavformat=");
        Self::append_segment(&mut out, &self.avdevice, ", libavdevice=");
        Self::append_segment(&mut out, &self.avfilter, ", libavfilter=");
        Self::append_segment(&mut out, &self.swscale, ", libswscale=");
        Self::append_segment(&mut out, &self.swresample, ", libswresample=");
        Self::append_segment(&mut out, &self.avresample, ", libavresample=");
        Self::append_segment(&mut out, &self.postproc, ", libpostproc=");
        out
    }

    /// Appends one optional library's segment to the output: nothing when
    /// the library is absent.
    fn append_segment(out: &mut String, v: &Option<FFmpegVersion>, prefix: &str)
        ensures
            final(out)@ == old(out)@ + opt_segment(*v, prefix@),
    {
        match v {
            Some(v) => {
                out.append(prefix);
                let s = v.render();
                out.append(s.as_str());
                proof {
                    assert(out@ =~= old(out)@ + (prefix@ + version_chars(*v)));
                }
            },
            None => {
                proof {
                    assert(out@ =~= old(out)@ + Seq::<char>::empty());
                }
            },
        }
    }

    /// Renders the report by concatenating freshly built pieces. Emits
    /// exactly the canonical text, so it agrees with `full_string` on
    /// every report.
    pub fn display_string(&self) -> (r: String)
        ensures
            r@ == report_chars(*self),
    {
        let avutil = self.avutil.render();
        let header = String::from_str("ffmpeg=").concat(self.ffmpeg_version.as_str()).concat(
            ", libavutil=",
        ).concat(avutil.as_str());
        let mut out = header;
        let seg = Self::segment_string(&self.avcodec, ", libavcodec=");
        out = out.concat(seg.as_str());
        let seg = Self::segment_string(&self.avformat, ", libavformat=");
        out = out.concat(seg.as_str());
        let seg = Self::segment_string(&self.avdevice, ", libavdevice=");
        out = out.concat(seg.as_str());
        let seg = Self::segment_string(&self.avfilter, ", libavfilter=");
        out = out.concat(seg.as_str());
        let seg = Self::segment_string(&self.swscale, ", libswscale=");
        out = out.concat(seg.as_str());
        let seg = Self::segment_string(&self.swresample, ", libswresample=");
        out = out.concat(seg.as_str());
        let seg = Self::segment_string(&self.avresample, ", libavresample=");
        out = out.concat(seg.as_str());
        let seg = Self::segment_string(&self.postproc, ", libpostproc=");
        out = out.concat(seg.as_str());
        out
    }

    /// One optional library's segment as a string of its own: empty when
    /// the library is absent.
    fn segment_string(v: &Option<FFmpegVersion>, prefix: &str) -> (r: String)
        ensures
            r@ == opt_segment(*v, prefix@),
    {
        match v {
            Some(v) => {
                let s = v.render();
                String::from_str(prefix).concat(s.as_str())
            },
            None => String::new(),
        }
    }
}

/// Law: the two formatting entry points emit identical text for the same
/// report. `full_string` and `display_string` each ensure that their
/// result is `report_chars` of the report, so any two strings meeting
/// those contracts coincide character for character.
pub proof fn lemma_formatting_entry_points_agree(
    r: FFmpegVersionsInfo,
    a: Seq<char>,
    b: Seq<char>,
)
    requires
        a == report_chars(r),
        b == report_chars(r),
    ensures
        a == b,
{
}

/// Law: the report text lists the product string and the mandatory
/// library first, then one segment per present optional library in
/// declared order, and an absent library contributes no text.
pub proof fn lemma_report_layout(r: FFmpegVersionsInfo)
    ensures
        report_chars(r) == header_chars(r) + opt_segment(r.avcodec, ", libavcodec="@)
            + opt_segment(r.avformat, ", libavformat="@) + opt_segment(
            r.avdevice,
            ", libavdevice="@,
        ) + opt_segment(r.avfilter, ", libavfilter="@) + opt_segment(r.swscale, ", libswscale="@)
            + opt_segment(r.swresample, ", libswresample="@) + opt_segment(
            r.avresample,
            ", libavresample="@,
        ) + opt_segment(r.postproc, ", libpostproc="@),
        r.avcodec is None ==> opt_segment(r.avcodec, ", libavcodec="@) == Seq::<char>::empty(),
        r.avformat is None ==> opt_segment(r.avformat, ", libavformat="@) == Seq::<char>::empty(),
        r.avdevice is None ==> opt_segment(r.avdevice, ", libavdevice="@) == Seq::<char>::empty(),
        r.avfilter is None ==> opt_segment(r.avfilter, ", libavfilter="@) == Seq::<char>::empty(),
        r.swscale is None ==> opt_segment(r.swscale, ", libswscale="@) == Seq::<char>::empty(),
        r.swresample is None ==> opt_segment(r.swresample, ", libswresample="@)
            == Seq::<char>::empty(),
        r.avresample is None ==> opt_segment(r.avresample, ", libavresample="@)
            == Seq::<char>::empty(),
        r.postproc is None ==> opt_segment(r.postproc, ", libpostproc="@) == Seq::<char>::empty(),
{
}

/// Law: the report text always begins with `"ffmpeg="` followed by the
/// product string; in particular, a report whose product descriptor was
/// missing begins with `"ffmpeg=Unknown"`.
pub proof fn lemma_report_prefix(r: FFmpegVersionsInfo)
    ensures
        report_chars(r).subrange(0, 7 + r.ffmpeg_version@.len() as int) == "ffmpeg="@
            + r.ffmpeg_version@,
{
    reveal_strlit("ffmpeg=");
    assert("ffmpeg="@.len() == 7);
    let lead = "ffmpeg="@ + r.ffmpeg_version@;
    assert(report_chars(r).subrange(0, lead.len() as int) =~= lead);
}

/// Builds a report from raw values; identical to `FFmpegVersionsInfo::new`.
pub fn version(raw: RawVersions) -> (r: FFmpegVersionsInfo)
    ensures
        r.avutil == decoded(raw.avutil),
        r.avcodec == decoded_opt(raw.avcodec),
        r.avformat == decoded_opt(raw.avformat),
        r.avdevice == decoded_opt(raw.avdevice),
        r.avfilter == decoded_opt(raw.avfilter),
        r.swscale == decoded_opt(raw.swscale),
        r.swresample == decoded_opt(raw.swresample),
        r.avresample == decoded_opt(raw.avresample),
        r.postproc == decoded_opt(raw.postproc),
        r.ffmpeg_version@ == product_chars(raw.product),
{
    FFmpegVersionsInfo::new(raw)
}

} // verus!
