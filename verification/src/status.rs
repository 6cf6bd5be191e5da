//! Which codecs the device can encode.
//!
//! At the start every codec is probed once: an encoder is opened and one frame is encoded.
//! The results are published together, after every probe encoder is gone.

use crate::encoder::JetsonEncoder;
use crate::encoder_model::JetsonEncoderConfig;
use crate::error::JetsonError;
use crate::format::{codec_number, CodecFormat};
use crate::frame::VideoFrame;
use vstd::prelude::*;

verus! {

/// The width and height of the frame that a probe encodes.
pub const PROBE_SIZE: usize = 256;

/// The number of bytes of that frame.
pub const PROBE_BYTES: usize = 0x4_0000;

/// The bits of the single-precision number 1, the quality that a probe runs with.
pub const QUALITY_ONE: u32 = 0x3f80_0000;

/// What is known of the device.
pub struct EncoderStatus {
    available: Vec<(CodecFormat, bool)>,
    disabled: bool,
}

/// What is known of the device, as a value: the published results, and whether the encoder
/// has been switched off.
#[verifier::ext_equal]
pub struct StatusView {
    pub available: Seq<(CodecFormat, bool)>,
    pub disabled: bool,
}

impl View for EncoderStatus {
    type V = StatusView;

    closed spec fn view(&self) -> StatusView {
        StatusView { available: self.available@, disabled: self.disabled }
    }
}

/// An environment variable that is set to "1".
pub open spec fn is_one(value: Option<String>) -> bool {
    value is Some && value->0@ == "1"@
}

impl StatusView {
    /// Some published probe of `format` succeeded.
    pub open spec fn works(self, format: CodecFormat) -> bool {
        self.available.contains((format, true))
    }

    /// The encoder may be used for `format`. `disable` and `av1` are the environment variables
    /// that switch the encoder off and AV1 on.
    pub open spec fn usable(
        self,
        format: CodecFormat,
        disable: Option<String>,
        av1: Option<String>,
    ) -> bool {
        &&& !self.disabled
        &&& !is_one(disable)
        &&& format == CodecFormat::AV1 ==> is_one(av1)
        &&& self.works(format)
    }
}

/// The codecs in the order in which they are probed.
pub open spec fn probed_formats() -> Seq<CodecFormat> {
    seq![CodecFormat::H264, CodecFormat::H265, CodecFormat::AV1]
}

/// The probing of the device: the results so far.
pub struct ProbeRun {
    results: Vec<(CodecFormat, bool)>,
}

impl View for ProbeRun {
    type V = Seq<(CodecFormat, bool)>;

    closed spec fn view(&self) -> Seq<(CodecFormat, bool)> {
        self.results@
    }
}

/// `results` are those of the first codecs to be probed.
pub open spec fn probe_prefix(results: Seq<(CodecFormat, bool)>) -> bool {
    &&& results.len() <= probed_formats().len()
    &&& forall|i: int| 0 <= i < results.len() ==> (#[trigger] results[i]).0 == probed_formats()[i]
}

impl EncoderStatus {
    /// Nothing is known yet.
    pub fn new() -> (r: EncoderStatus)
        ensures
            r@ == (StatusView { available: Seq::empty(), disabled: false }),
    {
        EncoderStatus { available: Vec::new(), disabled: false }
    }
}

fn env_is_one(value: &Option<String>) -> (r: bool)
    ensures
        r == is_one(*value),
{
    match value {
        Some(v) => {
            let one: String = "1".to_owned();
            *v == one
        },
        None => false,
    }
}

impl JetsonEncoder {
    /// Switches the encoder off for good.
    pub fn disable_all(status: &mut EncoderStatus)
        ensures
            final(status)@ == (StatusView { disabled: true, ..old(status)@ }),
    {
        status.disabled = true;
    }

    /// Switches the encoder off for good.
    pub fn disable(&self, status: &mut EncoderStatus)
        ensures
            final(status)@ == (StatusView { disabled: true, ..old(status)@ }),
    {
        Self::disable_all(status);
    }

    /// Begins to probe every codec.
    pub fn start_probe() -> (r: ProbeRun)
        ensures
            r@ == Seq::<(CodecFormat, bool)>::empty(),
            probe_prefix(r@),
    {
        ProbeRun { results: Vec::new() }
    }

    /// Whether the encoder may be used for `format`. `disable` and `av1` are the values of the
    /// environment variables that switch the encoder off and AV1 on.
    ///
    /// The AV1 encoder now and then emits streams that stop decoding after a few frames at
    /// some widths, so AV1 has to be asked for.
    pub fn available(
        status: &EncoderStatus,
        format: CodecFormat,
        disable: &Option<String>,
        av1: &Option<String>,
    ) -> (r: bool)
        ensures
            r == status@.usable(format, *disable, *av1),
            is_one(*disable) ==> !r,
            status@.disabled ==> !r,
            format == CodecFormat::AV1 && !is_one(*av1) ==> !r,
    {
        if status.disabled || env_is_one(disable) {
            return false;
        }
        if format == CodecFormat::AV1 && !env_is_one(av1) {
            return false;
        }
        let mut i: usize = 0;
        while i < status.available.len()
            invariant
                0 <= i <= status.available.len(),
                !status@.disabled,
                !is_one(*disable),
                format == CodecFormat::AV1 ==> is_one(*av1),
                forall|j: int| 0 <= j < i ==> status.available@[j] != (format, true),
            decreases status.available.len() - i,
        {
            let entry: (CodecFormat, bool) = status.available[i];
            if entry.0 == format && entry.1 {
                assert(status@.available[i as int] == (format, true));
                return true;
            }
            i = i + 1;
        }
        false
    }

    /// What to open an encoder with to probe `format`; `None` where there is no device, and
    /// the probe has failed.
    pub fn probe(format: CodecFormat, device_exists: bool) -> (r: Option<JetsonEncoderConfig>)
        ensures
            r == (if device_exists {
                Some(
                    JetsonEncoderConfig {
                        format,
                        width: PROBE_SIZE,
                        height: PROBE_SIZE,
                        quality_bits: QUALITY_ONE,
                        keyframe_interval: None,
                    },
                )
            } else {
                None
            }),
    {
        if !device_exists {
            return None;
        }
        Some(
            JetsonEncoderConfig {
                format,
                width: PROBE_SIZE,
                height: PROBE_SIZE,
                quality_bits: QUALITY_ONE,
                keyframe_interval: None,
            },
        )
    }

    /// Whether a probe succeeded: the device is there, the encoder opened, and the grey frame was
    /// encoded. `encoded` is what encoding it came to, `None` where no encoder could be opened.
    pub fn probe_works(
        device_exists: bool,
        encoded: &Option<Result<VideoFrame, JetsonError>>,
    ) -> (r: bool)
        ensures
            r == (device_exists && encoded is Some && encoded->0 is Ok),
    {
        if !device_exists {
            return false;
        }
        match encoded {
            Some(Ok(_)) => true,
            _ => false,
        }
    }

    /// The grey frame that a probe encodes.
    pub fn probe_frame() -> (r: Vec<u8>)
        ensures
            r@ == Seq::new(PROBE_BYTES as nat, |i: int| 0x80u8),
            r@.len() == PROBE_SIZE * PROBE_SIZE * 4,
    {
        let r: Vec<u8> = vec![0x80u8; PROBE_BYTES];
        assert(r@ =~= Seq::new(PROBE_BYTES as nat, |i: int| 0x80u8));
        r
    }
}

impl ProbeRun {
    /// The codec to probe next; `None` when all have been probed.
    pub fn next_format(&self) -> (r: Option<CodecFormat>)
        requires
            probe_prefix(self@),
        ensures
            r == (if self@.len() < probed_formats().len() {
                Some(probed_formats()[self@.len() as int])
            } else {
                None
            }),
    {
        match self.results.len() {
            0 => Some(CodecFormat::H264),
            1 => Some(CodecFormat::H265),
            2 => Some(CodecFormat::AV1),
            _ => None,
        }
    }

    /// Notes whether the probe of the next codec succeeded.
    pub fn record(&mut self, works: bool)
        requires
            probe_prefix(old(self)@),
            old(self)@.len() < probed_formats().len(),
        ensures
            final(self)@ == old(self)@.push((probed_formats()[old(self)@.len() as int], works)),
            probe_prefix(final(self)@),
    {
        match self.next_format() {
            Some(format) => {
                self.results.push((format, works));
            },
            None => {},
        }
    }

    /// Publishes the results, all together.
    pub fn publish(self, status: &mut EncoderStatus)
        requires
            probe_prefix(self@),
            self@.len() == probed_formats().len(),
        ensures
            final(status)@ == (StatusView { available: self@, ..old(status)@ }),
    {
        status.available = self.results;
    }
}

/// Nothing is available before the probes are published.
pub proof fn nothing_available_before_probes(
    status: StatusView,
    format: CodecFormat,
    disable: Option<String>,
    av1: Option<String>,
)
    requires
        status.available.len() == 0,
    ensures
        !status.usable(format, disable, av1),
{
}

/// Once the encoder is switched off, nothing is available, whatever is published later.
pub proof fn nothing_available_once_disabled(
    status: StatusView,
    results: Seq<(CodecFormat, bool)>,
    format: CodecFormat,
    disable: Option<String>,
    av1: Option<String>,
)
    requires
        status.disabled,
    ensures
        !status.usable(format, disable, av1),
        !(StatusView { available: results, ..status }).usable(format, disable, av1),
{
}

/// After all probes are published, a codec is available exactly if its own probe succeeded,
/// the encoder is not switched off and, for AV1, it was asked for. Codecs that are not
/// probed are never available.
pub proof fn available_is_what_was_probed(
    status: StatusView,
    format: CodecFormat,
    disable: Option<String>,
    av1: Option<String>,
)
    requires
        probe_prefix(status.available),
        status.available.len() == probed_formats().len(),
        !status.disabled,
        !is_one(disable),
    ensures
        status.usable(format, disable, av1) == match format {
            CodecFormat::H264 => status.available[0].1,
            CodecFormat::H265 => status.available[1].1,
            CodecFormat::AV1 => status.available[2].1 && is_one(av1),
            CodecFormat::VP8 | CodecFormat::VP9 | CodecFormat::Unknown => false,
        },
{
    let a = status.available;
    assert(a[0].0 == CodecFormat::H264 && a[1].0 == CodecFormat::H265 && a[2].0
        == CodecFormat::AV1);
    if status.works(format) {
        let i = choose|i: int| 0 <= i < a.len() && a[i] == (format, true);
        assert(a[i].0 == format);
    }
    if a[0].1 {
        assert(a[0] == (CodecFormat::H264, true));
    }
    if a[1].1 {
        assert(a[1] == (CodecFormat::H265, true));
    }
    if a[2].1 {
        assert(a[2] == (CodecFormat::AV1, true));
    }
}

/// A variable is on exactly if it is set to the one character 1.
pub proof fn variable_is_on_if_it_is_the_digit_one(value: Option<String>)
    ensures
        is_one(value) <==> value is Some && value->0@.len() == 1 && value->0@[0] == '1',
{
    reveal_strlit("1");
    if value is Some && value->0@.len() == 1 && value->0@[0] == '1' {
        assert(value->0@ =~= "1"@);
    }
}

/// Where the variable that switches the encoder off is set to 1, no codec is available, whatever
/// is known of the device, whatever the codec, and however the variable for AV1 is set.
pub proof fn nothing_available_where_switched_off(
    status: StatusView,
    format: CodecFormat,
    disable: Option<String>,
    av1: Option<String>,
)
    requires
        disable is Some,
        disable->0@ == seq!['1'],
    ensures
        !status.usable(format, disable, av1),
{
    variable_is_on_if_it_is_the_digit_one(disable);
}

/// AV1 is not available unless its own variable is set to 1.
pub proof fn av1_unavailable_unless_asked_for(
    status: StatusView,
    disable: Option<String>,
    av1: Option<String>,
)
    requires
        !(av1 is Some && av1->0@ == seq!['1']),
    ensures
        !status.usable(CodecFormat::AV1, disable, av1),
{
    variable_is_on_if_it_is_the_digit_one(av1);
    if is_one(av1) {
        assert(av1->0@ =~= seq!['1']);
    }
}

/// What does not matter: the variable for AV1 to the other codecs, the variable that switches the
/// encoder off as long as it is not set to 1, and the results of other codecs.
pub proof fn availability_depends_on_its_own_switches(
    status: StatusView,
    other: StatusView,
    format: CodecFormat,
    disable: (Option<String>, Option<String>),
    av1: (Option<String>, Option<String>),
)
    requires
        disable.0 is Some ==> disable.0->0@ != seq!['1'],
        disable.1 is Some ==> disable.1->0@ != seq!['1'],
        format == CodecFormat::AV1 ==> av1.0 == av1.1,
        status.disabled == other.disabled,
        status.available.contains((format, true)) == other.available.contains((format, true)),
    ensures
        status.usable(format, disable.0, av1.0) == other.usable(format, disable.1, av1.1),
{
    variable_is_on_if_it_is_the_digit_one(disable.0);
    variable_is_on_if_it_is_the_digit_one(disable.1);
    if is_one(disable.0) {
        assert(disable.0->0@ =~= seq!['1']);
    }
    if is_one(disable.1) {
        assert(disable.1->0@ =~= seq!['1']);
    }
}

/// A codec is available only by a published probe of its own that succeeded, and with one it is,
/// unless it is switched off or is AV1 and not asked for.
pub proof fn available_by_its_own_probe(
    status: StatusView,
    format: CodecFormat,
    disable: Option<String>,
    av1: Option<String>,
)
    ensures
        status.usable(format, disable, av1) ==> !status.disabled && exists|i: int|
            0 <= i < status.available.len() && #[trigger] status.available[i] == (format, true),
        !status.disabled && disable is None && (format == CodecFormat::AV1 ==> av1 is Some
            && av1->0@ == seq!['1']) && (exists|i: int|
            0 <= i < status.available.len() && #[trigger] status.available[i] == (format, true))
            ==> status.usable(format, disable, av1),
{
    variable_is_on_if_it_is_the_digit_one(av1);
}

/// Every codec of the device is probed, and none twice.
pub proof fn every_codec_is_probed_once(format: CodecFormat)
    ensures
        codec_number(format) is Some <==> probed_formats().contains(format),
        probed_formats().no_duplicates(),
{
    let all = probed_formats();
    assert(all[0] == CodecFormat::H264 && all[1] == CodecFormat::H265 && all[2]
        == CodecFormat::AV1);
}

} // verus!
