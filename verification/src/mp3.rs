//! The MP3 side of a recording: setting up the LAME encoder for a spec, sizing its output
//! buffer, and gathering the interleaved samples it is to encode.
use vstd::prelude::*;
use vstd::string::StringExecFns;
use crate::errors::Mp3WriterError;
use crate::spec::Mp3Spec;
use mp3lame_encoder::{Builder, Encoder, BuildError};

verus! {

#[verifier::external_type_specification]
#[verifier::external_body]
pub struct ExBuilder(mp3lame_encoder::Builder);

#[verifier::external_type_specification]
#[verifier::external_body]
pub struct ExEncoder(mp3lame_encoder::Encoder);

/// The errors LAME reports while an encoder is set up, one for each variant of
/// `mp3lame_encoder::BuildError`.
#[derive(Debug, Clone, Copy, PartialEq, Eq, Structural)]
pub enum LameBuildError {
    /// Invalid input or state.
    Generic,
    /// Memory could not be allocated.
    NoMem,
    /// Invalid bitrate.
    BadBRate,
    /// Invalid sample frequency.
    BadSampleFreq,
    /// Internal error.
    InternalError,
    /// Any other error code.
    Other(i32),
}

/// The decimal digits of `n`, as characters, most significant first.
pub open spec fn nat_text(n: nat) -> Seq<char>
    decreases n,
{
    if n < 10 {
        seq![(48 + n) as char]
    } else {
        nat_text(n / 10).push((48 + n % 10) as char)
    }
}

/// `n` in decimal, with a leading `-` when it is negative.
pub open spec fn int_text(n: int) -> Seq<char> {
    if n < 0 {
        seq!['-'] + nat_text((-n) as nat)
    } else {
        nat_text(n as nat)
    }
}

/// How `BuildError`'s `Display` describes each LAME set-up error.
pub open spec fn spec_build_error_text(e: LameBuildError) -> Seq<char> {
    match e {
        LameBuildError::Generic => "error"@,
        LameBuildError::NoMem => "alloc failure"@,
        LameBuildError::BadBRate => "bad bitrate"@,
        LameBuildError::BadSampleFreq => "bad sample frequency"@,
        LameBuildError::InternalError => "internal error"@,
        LameBuildError::Other(code) => "error code="@ + int_text(code as int),
    }
}

/// The parameters stored in a LAME context: for each one the library sets, the value LAME
/// stored, or `None` while the library has not set it (LAME then holds its default).
#[derive(Debug, Clone, Copy, PartialEq, Eq, Structural)]
pub struct LameSettings {
    /// Number of input channels (`lame_set_num_channels`).
    pub num_channels: Option<u8>,
    /// Input sample rate in Hz (`lame_set_in_samplerate`).
    pub in_samplerate: Option<u32>,
    /// Constant bitrate in kbps (`lame_set_brate`).
    pub brate_kbps: Option<u16>,
    /// Quality, from 0 (best) to 9 (worst) (`lame_set_quality`).
    pub quality: Option<u8>,
}

/// The input sample rate LAME stores when handed `rate`: the rate itself, capped at the
/// largest C `int`.
pub open spec fn lame_input_rate(rate: u32) -> u32 {
    if rate <= 0x7fff_ffff {
        rate
    } else {
        0x7fff_ffff
    }
}

/// The model of a context none of whose parameters the library has set.
pub open spec fn unset_settings() -> LameSettings {
    LameSettings { num_channels: None, in_samplerate: None, brate_kbps: None, quality: None }
}

/// A LAME encoder builder together with a model of the parameters stored in it.
pub struct LameBuilder {
    inner: Builder,
    settings: Ghost<LameSettings>,
}

impl LameBuilder {
    /// The parameters stored in this builder's LAME context.
    pub closed spec fn settings(&self) -> LameSettings {
        self.settings@
    }
}

/// A LAME encoder together with the parameters its context held when it was built. LAME
/// may adjust the bitrate and quality while it initializes; the channel count and the
/// input sample rate stay as stored.
pub struct LameEncoder {
    pub inner: Encoder,
    built_from: Ghost<LameSettings>,
}

impl LameEncoder {
    /// The parameters the encoder's context held when it was built.
    pub closed spec fn built_from(&self) -> LameSettings {
        self.built_from@
    }
}

/// Calls `mp3lame_encoder::Builder::new`, which allocates a LAME context with default
/// parameters and returns `None` when the allocation fails. Nothing is claimed of the
/// outcome but that a new builder has none of the library's parameters set: it rests on
/// the machine's memory.
#[verifier::external_body]
fn new_builder() -> (b: Option<LameBuilder>)
    ensures
        b matches Some(b) ==> b.settings() == unset_settings(),
{
    match Builder::new() {
        Some(inner) => Some(LameBuilder { inner, settings: Ghost(unset_settings()) }),
        None => None,
    }
}

/// Calls `Builder::set_num_channels`, which passes `num` to LAME's
/// `lame_set_num_channels`. LAME takes one or two channels, storing the count, and refuses
/// any other count, storing nothing, with code -1 (`Generic`); that is what is claimed.
#[verifier::external_body]
fn set_num_channels(builder: &mut LameBuilder, num: u8) -> (r: Result<(), LameBuildError>)
    ensures
        r is Ok <==> 1 <= num <= 2,
        r matches Err(e) ==> e == LameBuildError::Generic,
        r is Ok ==> final(builder).settings() == (LameSettings {
            num_channels: Some(num),
            ..old(builder).settings()
        }),
        r is Err ==> final(builder).settings() == old(builder).settings(),
{
    match builder.inner.set_num_channels(num) {
        Ok(v) => Ok(v),
        Err(BuildError::Generic) => Err(LameBuildError::Generic),
        Err(BuildError::NoMem) => Err(LameBuildError::NoMem),
        Err(BuildError::BadBRate) => Err(LameBuildError::BadBRate),
        Err(BuildError::BadSampleFreq) => Err(LameBuildError::BadSampleFreq),
        Err(BuildError::InternalError) => Err(LameBuildError::InternalError),
        Err(BuildError::Other(code)) => Err(LameBuildError::Other(code)),
    }
}

/// Calls `Builder::set_sample_rate`, which passes the input sample rate `rate` (capped at
/// the largest C `int`) to LAME's `lame_set_in_samplerate`. LAME refuses a rate below one,
/// storing nothing, with code -1 (`Generic`), and stores any other; that is what is claimed.
#[verifier::external_body]
fn set_sample_rate(builder: &mut LameBuilder, rate: u32) -> (r: Result<(), LameBuildError>)
    ensures
        r is Ok <==> rate >= 1,
        r matches Err(e) ==> e == LameBuildError::Generic,
        r is Ok ==> final(builder).settings() == (LameSettings {
            in_samplerate: Some(lame_input_rate(rate)),
            ..old(builder).settings()
        }),
        r is Err ==> final(builder).settings() == old(builder).settings(),
{
    match builder.inner.set_sample_rate(rate) {
        Ok(v) => Ok(v),
        Err(BuildError::Generic) => Err(LameBuildError::Generic),
        Err(BuildError::NoMem) => Err(LameBuildError::NoMem),
        Err(BuildError::BadBRate) => Err(LameBuildError::BadBRate),
        Err(BuildError::BadSampleFreq) => Err(LameBuildError::BadSampleFreq),
        Err(BuildError::InternalError) => Err(LameBuildError::InternalError),
        Err(BuildError::Other(code)) => Err(LameBuildError::Other(code)),
    }
}

/// Calls `Builder::set_brate` with `Bitrate::Kbps320`, a constant bitrate of 320 kbps.
/// LAME's `lame_set_brate` stores any bitrate (here 320) and succeeds; that is what is
/// claimed.
#[verifier::external_body]
fn set_brate_320(builder: &mut LameBuilder) -> (r: Result<(), LameBuildError>)
    ensures
        r is Ok,
        final(builder).settings() == (LameSettings {
            brate_kbps: Some(320),
            ..old(builder).settings()
        }),
{
    match builder.inner.set_brate(mp3lame_encoder::Bitrate::Kbps320) {
        Ok(v) => Ok(v),
        Err(BuildError::Generic) => Err(LameBuildError::Generic),
        Err(BuildError::NoMem) => Err(LameBuildError::NoMem),
        Err(BuildError::BadBRate) => Err(LameBuildError::BadBRate),
        Err(BuildError::BadSampleFreq) => Err(LameBuildError::BadSampleFreq),
        Err(BuildError::InternalError) => Err(LameBuildError::InternalError),
        Err(BuildError::Other(code)) => Err(LameBuildError::Other(code)),
    }
}

/// Calls `Builder::set_quality` with `Quality::Best`, the best quality LAME offers.
/// LAME's `lame_set_quality` stores the quality (`Best` is 0), clamped into range, and
/// succeeds; that is what is claimed.
#[verifier::external_body]
fn set_quality_best(builder: &mut LameBuilder) -> (r: Result<(), LameBuildError>)
    ensures
        r is Ok,
        final(builder).settings() == (LameSettings { quality: Some(0), ..old(builder).settings() }),
{
    match builder.inner.set_quality(mp3lame_encoder::Quality::Best) {
        Ok(v) => Ok(v),
        Err(BuildError::Generic) => Err(LameBuildError::Generic),
        Err(BuildError::NoMem) => Err(LameBuildError::NoMem),
        Err(BuildError::BadBRate) => Err(LameBuildError::BadBRate),
        Err(BuildError::BadSampleFreq) => Err(LameBuildError::BadSampleFreq),
        Err(BuildError::InternalError) => Err(LameBuildError::InternalError),
        Err(BuildError::Other(code)) => Err(LameBuildError::Other(code)),
    }
}

/// Calls `Builder::build`, which has LAME check the parameters set on the builder and
/// returns the encoder, or the error LAME reported. Nothing is claimed of the outcome but
/// that an encoder is built from the parameters its builder held.
#[verifier::external_body]
fn build(builder: LameBuilder) -> (r: Result<LameEncoder, LameBuildError>)
    ensures
        r matches Ok(e) ==> e.built_from() == builder.settings(),
{
    match builder.inner.build() {
        Ok(inner) => Ok(LameEncoder { inner, built_from: Ghost(builder.settings@) }),
        Err(BuildError::Generic) => Err(LameBuildError::Generic),
        Err(BuildError::NoMem) => Err(LameBuildError::NoMem),
        Err(BuildError::BadBRate) => Err(LameBuildError::BadBRate),
        Err(BuildError::BadSampleFreq) => Err(LameBuildError::BadSampleFreq),
        Err(BuildError::InternalError) => Err(LameBuildError::InternalError),
        Err(BuildError::Other(code)) => Err(LameBuildError::Other(code)),
    }
}

/// Calls `to_string` on the `BuildError` that `error` stands for. Its `Display` writes a
/// fixed text for each variant (`error`, `alloc failure`, `bad bitrate`, `bad sample
/// frequency`, `internal error`) and `error code=` followed by the code in decimal for any
/// other code; that is what is claimed.
#[verifier::external_body]
fn build_error_text(error: LameBuildError) -> (s: String)
    ensures
        s@ == spec_build_error_text(error),
{
    let error = match error {
        LameBuildError::Generic => BuildError::Generic,
        LameBuildError::NoMem => BuildError::NoMem,
        LameBuildError::BadBRate => BuildError::BadBRate,
        LameBuildError::BadSampleFreq => BuildError::BadSampleFreq,
        LameBuildError::InternalError => BuildError::InternalError,
        LameBuildError::Other(code) => BuildError::Other(code),
    };
    error.to_string()
}

/// The number of bytes that encoding `n` samples may take: `n`, a quarter of `n` rounded
/// up, and 7200 bytes for one MP3 frame, computed modulo the width of a `usize`.
pub open spec fn spec_max_required_buffer_size(n: int) -> int {
    (n + n / 4 + (if n % 4 > 0 {
        1int
    } else {
        0int
    }) + 7200) % (usize::MAX as int + 1)
}

/// A wrapping addition of two `usize` values is their sum modulo the width of a `usize`.
proof fn lemma_wrapping_add_mod(x: usize, y: usize)
    ensures
        x.wrapping_add(y) as int == (x + y) % (usize::MAX as int + 1),
{
    let m = usize::MAX as int + 1;
    let s = x + y;
    if s < m {
        vstd::arithmetic::div_mod::lemma_small_mod(s as nat, m as nat);
    } else {
        vstd::arithmetic::div_mod::lemma_mod_add_multiples_vanish(s - m, m);
        vstd::arithmetic::div_mod::lemma_small_mod((s - m) as nat, m as nat);
    }
}

/// The number of output bytes to reserve for encoding `sample_number` samples, as LAME's
/// binding sizes it: a quarter more, rounded up, and one MP3 frame of 7200 bytes, with
/// wrapping additions.
pub fn max_required_buffer_size(sample_number: usize) -> (r: usize)
    ensures
        r as int == spec_max_required_buffer_size(sample_number as int),
{
    let mut sample_extra_size: usize = sample_number / 4;
    if sample_number % 4 > 0 {
        sample_extra_size = sample_extra_size.wrapping_add(1);
    }
    let with_extra: usize = sample_number.wrapping_add(sample_extra_size);
    let r: usize = with_extra.wrapping_add(7200);
    proof {
        let m = usize::MAX as int + 1;
        lemma_wrapping_add_mod(sample_number / 4, 1);
        vstd::arithmetic::div_mod::lemma_small_mod((sample_number / 4 + 1) as nat, m as nat);
        lemma_wrapping_add_mod(sample_number, sample_extra_size);
        lemma_wrapping_add_mod(with_extra, 7200);
        vstd::arithmetic::div_mod::lemma_add_mod_noop(sample_number + sample_extra_size, 7200, m);
        vstd::arithmetic::div_mod::lemma_small_mod(7200, m as nat);
    }
    r
}

/// The error an encoder set-up step failed with: an encoder build error carrying LAME's
/// description of `error`.
pub fn build_failure(error: LameBuildError) -> (e: Mp3WriterError)
    ensures
        e matches Mp3WriterError::EncoderBuildError(m) && m@ == spec_build_error_text(error),
{
    Mp3WriterError::EncoderBuildError(build_error_text(error))
}

/// The channel count and input sample rate the encoder for `spec` is configured with: the
/// spec's channel count, and its sample rate cut to 32 bits.
pub open spec fn encoder_settings(spec: Mp3Spec) -> (u8, u32) {
    (spec.channels, spec.sample_rate as u32)
}

/// Whether LAME refuses the settings of `spec` outright: it takes one or two channels and
/// a sample rate of at least one.
pub open spec fn settings_refused(spec: Mp3Spec) -> bool {
    let (channels, rate) = encoder_settings(spec);
    channels == 0 || channels > 2 || rate == 0
}

/// The parameters the encoder for `spec` is built from: the spec's channel count and
/// sample rate (cut to 32 bits, as LAME stores it), a constant 320 kbps and the best
/// quality.
pub open spec fn requested_settings(spec: Mp3Spec) -> LameSettings {
    LameSettings {
        num_channels: Some(spec.channels),
        in_samplerate: Some(lame_input_rate(spec.sample_rate as u32)),
        brate_kbps: Some(320),
        quality: Some(0),
    }
}

/// Every encoder is asked for the spec's channel count and sample rate (as LAME stores a
/// rate: unchanged up to the largest C `int`), a constant bitrate of 320 kbps and the best
/// quality, whatever the spec.
pub proof fn lemma_encoder_asks_320_kbps_best(spec: Mp3Spec)
    ensures
        requested_settings(spec).brate_kbps == Some(320u16),
        requested_settings(spec).quality == Some(0u8),
        requested_settings(spec).num_channels == Some(spec.channels),
        spec.sample_rate as u32 <= 0x7fff_ffff ==> requested_settings(spec).in_samplerate == Some(
            spec.sample_rate as u32,
        ),
{
}

/// The message of an encoder set-up that failed: either allocating the builder failed, or
/// LAME refused a step with error `k`.
pub open spec fn setup_failure_text(m: Seq<char>) -> bool {
    m == "failed to get new builder"@ || exists|k: LameBuildError| m == spec_build_error_text(k)
}

/// Sets up a LAME encoder for `spec`: the spec's channel count and sample rate, a constant
/// bitrate of 320 kbps and the best quality, in that order. Any failing step, starting with
/// allocating the builder, ends the set-up with an encoder build error carrying either
/// `failed to get new builder` or LAME's description of the refusal; a spec whose channel
/// count or sample rate LAME refuses always fails, with one of those texts or `error`.
pub fn initialize_encoder(spec: &Mp3Spec) -> (r: Result<LameEncoder, Mp3WriterError>)
    ensures
        r matches Ok(e) ==> e.built_from() == requested_settings(*spec),
        r matches Ok(e) ==> (e.built_from().brate_kbps == Some(320u16) && e.built_from().quality
            == Some(0u8) && e.built_from().num_channels == Some(spec.channels)
            && e.built_from().in_samplerate == Some(lame_input_rate(spec.sample_rate as u32))),
        r matches Err(e) ==> (e matches Mp3WriterError::EncoderBuildError(m) && setup_failure_text(
            m@,
        )),
        settings_refused(*spec) ==> (r matches Err(Mp3WriterError::EncoderBuildError(m)) && (m@
            == "failed to get new builder"@ || m@ == "error"@)),
{
    proof {
        reveal_strlit("failed to get new builder");
        reveal_strlit("error");
    }
    let mut mp3_encoder = match new_builder() {
        None => return Err(
            Mp3WriterError::EncoderBuildError(String::from_str("failed to get new builder")),
        ),
        Some(builder) => builder,
    };
    let (channels, sample_rate) = settings_of(spec);
    if let Err(error) = set_num_channels(&mut mp3_encoder, channels) {
        return Err(build_failure(error));
    }
    if let Err(error) = set_sample_rate(&mut mp3_encoder, sample_rate) {
        return Err(build_failure(error));
    }
    if let Err(error) = set_brate_320(&mut mp3_encoder) {
        return Err(build_failure(error));
    }
    if let Err(error) = set_quality_best(&mut mp3_encoder) {
        return Err(build_failure(error));
    }
    match build(mp3_encoder) {
        Ok(encoder) => Ok(encoder),
        Err(error) => Err(build_failure(error)),
    }
}

/// The channel count and input sample rate that `initialize_encoder` hands to LAME.
pub fn settings_of(spec: &Mp3Spec) -> (s: (u8, u32))
    ensures
        s == encoder_settings(*spec),
{
    let rate = spec.sample_rate as u32;
    (spec.channels, rate)
}

/// An empty output buffer for encoding `len_buffer` samples, with room reserved for
/// `max_required_buffer_size(len_buffer)` bytes.
pub fn initialize_buffer(len_buffer: usize) -> (v: Vec<u8>)
    ensures
        v@ == Seq::<u8>::empty(),
{
    let mut mp3_out_buffer: Vec<u8> = Vec::new();
    mp3_out_buffer.reserve(max_required_buffer_size(len_buffer));
    mp3_out_buffer
}

/// An empty output buffer for encoding `num_samples` frames of `spec`, with room reserved
/// for `max_required_buffer_size(num_samples * channels)` bytes.
pub fn initialize_buffer_for(spec: &Mp3Spec, num_samples: usize) -> (v: Vec<u8>)
    requires
        num_samples * spec.channels <= usize::MAX,
    ensures
        v@ == Seq::<u8>::empty(),
{
    let chans: usize = spec.channels as usize;
    let sample_count_interleaved = num_samples * chans;
    initialize_buffer(sample_count_interleaved)
}

/// The number of interleaved samples that fifteen minutes of audio of `spec` hold.
pub open spec fn fifteen_minutes_of_samples(spec: Mp3Spec) -> int {
    spec.sample_rate * 60 * 15 * spec.channels
}

/// Whether the quantities `Mp3SampleBuffer::new` computes with fit in a `usize`.
pub open spec fn sample_buffer_size_fits(spec: Mp3Spec) -> bool {
    &&& spec.sample_rate * 60 * 15 <= usize::MAX
    &&& fifteen_minutes_of_samples(spec) <= usize::MAX
}

/// An MP3 writer: an encoder set up for `spec`, and the sink its output goes to.
pub struct Mp3Writer<W> {
    pub spec: Mp3Spec,
    pub writer: W,
    pub encoder: LameEncoder,
}

impl<W> Mp3Writer<W> {
    /// A writer of `spec` into `writer`, with a fresh encoder set up for `spec` as
    /// `initialize_encoder` does it. The only error is that of setting up the encoder.
    pub fn new(writer: W, spec: Mp3Spec) -> (r: Result<Mp3Writer<W>, Mp3WriterError>)
        requires
            sample_buffer_size_fits(spec),
        ensures
            r matches Ok(w) ==> w.spec == spec && w.writer == writer && w.encoder.built_from()
                == requested_settings(spec),
            r matches Ok(w) ==> (w.encoder.built_from().brate_kbps == Some(320u16)
                && w.encoder.built_from().quality == Some(0u8) && w.encoder.built_from().num_channels
                == Some(spec.channels) && w.encoder.built_from().in_samplerate == Some(
                lame_input_rate(spec.sample_rate as u32),
            )),
            r matches Err(e) ==> (e matches Mp3WriterError::EncoderBuildError(m)
                && setup_failure_text(m@)),
            settings_refused(spec) ==> (r matches Err(Mp3WriterError::EncoderBuildError(m)) && (m@
                == "failed to get new builder"@ || m@ == "error"@)),
    {
        let encoder = initialize_encoder(&spec)?;
        Ok(Mp3Writer { spec, writer, encoder })
    }
}

/// Whether the fifteen-minute buffer size of `spec` can be computed, which
/// `Mp3SampleBuffer::new` and `Mp3Writer::new` need.
pub fn sample_buffer_size_computable(spec: Mp3Spec) -> (b: bool)
    ensures
        b == sample_buffer_size_fits(spec),
{
    let rate = spec.sample_rate as u128;
    let per_15min = rate * 60 * 15;
    if per_15min > usize::MAX as u128 {
        return false;
    }
    let channels = spec.channels as u128;
    assert(per_15min * channels <= 0xffff_ffff_ffff_ffff * 255) by (nonlinear_arith)
        requires
            per_15min <= 0xffff_ffff_ffff_ffff,
            channels <= 255,
    ;
    let total = per_15min * channels;
    total <= usize::MAX as u128
}

/// The interleaved samples gathered for one MP3 file, before they are encoded.
pub struct Mp3SampleBuffer<T> {
    spec: Mp3Spec,
    buffer_interleaved: Vec<T>,
    samples_buffered: usize,
    samples_to_buffer: usize,
}

impl<T> Mp3SampleBuffer<T> {
    /// The spec of the file.
    pub closed spec fn spec(&self) -> Mp3Spec {
        self.spec
    }

    /// The samples gathered so far, in order.
    pub closed spec fn samples(&self) -> Seq<T> {
        self.buffer_interleaved@
    }

    /// The number of samples the buffer is sized for: fifteen minutes of audio.
    pub closed spec fn target(&self) -> usize {
        self.samples_to_buffer
    }

    /// The count of gathered samples agrees with the samples gathered.
    pub closed spec fn wf(&self) -> bool {
        self.samples_buffered == self.buffer_interleaved@.len()
    }

    /// An empty buffer for `spec`, sized for fifteen minutes of audio.
    pub fn new(spec: Mp3Spec) -> (b: Self)
        requires
            sample_buffer_size_fits(spec),
        ensures
            b.wf(),
            b.spec() == spec,
            b.samples() == Seq::<T>::empty(),
            b.target() == fifteen_minutes_of_samples(spec),
    {
        assert(spec.sample_rate * 60 * 15 * spec.channels >= 0) by (nonlinear_arith)
            requires
                spec.sample_rate >= 0,
                spec.channels >= 0,
        ;
        let chans: usize = spec.channels as usize;
        let samples_per_15min: usize = spec.sample_rate * 60 * 15;
        let samples_per_15min_interleaved: usize = samples_per_15min * chans;
        Mp3SampleBuffer {
            spec,
            buffer_interleaved: Vec::with_capacity(samples_per_15min_interleaved),
            samples_buffered: 0,
            samples_to_buffer: samples_per_15min_interleaved,
        }
    }

    /// Adds one sample after those gathered so far.
    pub fn write_sample(&mut self, sample: T) -> (r: Result<(), Mp3WriterError>)
        requires
            old(self).wf(),
            old(self).samples().len() < usize::MAX,
        ensures
            r is Ok,
            final(self).wf(),
            final(self).samples() == old(self).samples().push(sample),
            final(self).spec() == old(self).spec(),
            final(self).target() == old(self).target(),
    {
        self.write_sample_to_buffer(sample)
    }

    fn write_sample_to_buffer(&mut self, sample: T) -> (r: Result<(), Mp3WriterError>)
        requires
            old(self).wf(),
            old(self).samples().len() < usize::MAX,
        ensures
            r is Ok,
            final(self).wf(),
            final(self).samples() == old(self).samples().push(sample),
            final(self).spec() == old(self).spec(),
            final(self).target() == old(self).target(),
    {
        self.buffer_interleaved.push(sample);
        self.samples_buffered = self.samples_buffered + 1;
        Ok(())
    }

    /// The number of samples gathered so far.
    pub fn samples_buffered(&self) -> (n: usize)
        requires
            self.wf(),
        ensures
            n == self.samples().len(),
    {
        self.samples_buffered
    }

    /// The samples gathered so far.
    pub fn interleaved(&self) -> (s: &Vec<T>)
        ensures
            s@ == self.samples(),
    {
        &self.buffer_interleaved
    }

    /// The spec of the file.
    pub fn get_spec(&self) -> (s: Mp3Spec)
        ensures
            s == self.spec(),
    {
        self.spec
    }

    /// An empty output buffer sized for the samples gathered so far.
    pub fn output_buffer(&self) -> (v: Vec<u8>)
        requires
            self.wf(),
            self.samples().len() * self.spec().channels <= usize::MAX,
        ensures
            v@ == Seq::<u8>::empty(),
    {
        initialize_buffer_for(&self.spec, self.samples_buffered)
    }
}

} // verus!
