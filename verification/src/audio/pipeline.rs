//! Starting the audio: what the devices have to offer, and what is built on them in which order.

use vstd::prelude::*;
use vstd::string::*;

use crate::audio::capture::INPUT_RING_SAMPLES;
use crate::audio::output::OUTPUT_RING_SAMPLES;
use crate::error::{ErrorKind, VoiceError};
use crate::text;

verus! {

/// How a device represents a sample.
#[derive(Debug)]
pub enum SampleKind {
    I16,
    U16,
    F32,
    /// Something else, with its name.
    Other(String),
}

/// What a device has to offer.
#[derive(Debug)]
pub struct DeviceConfig {
    pub sample_rate: u32,
    pub channels: u16,
    pub format: SampleKind,
}

/// Checks that there are devices.
pub fn check_devices(input: bool, output: bool) -> (r: Result<(), VoiceError>)
    ensures
        match r {
            Ok(_) => input && output,
            Err(e) => if !input {
                e.is(ErrorKind::Audio, "未找到输入设备"@)
            } else {
                !output && e.is(ErrorKind::Audio, "未找到输出设备"@)
            },
        },
{
    if !input {
        Err(VoiceError::Audio("未找到输入设备".to_owned()))
    } else if !output {
        Err(VoiceError::Audio("未找到输出设备".to_owned()))
    } else {
        Ok(())
    }
}

/// How a sample of the input is converted.
#[derive(Debug, Clone, Copy, PartialEq, Eq, Structural)]
pub enum InputFormat {
    I16,
    F32,
}

/// How a sample of the output is converted.
#[derive(Debug, Clone, Copy, PartialEq, Eq, Structural)]
pub enum OutputFormat {
    I16,
    F32,
    U16,
}

/// Where the start stands: each phase waits for the outcome of one action.
#[derive(Debug, Clone, Copy, PartialEq, Eq, Structural)]
pub enum StartPhase {
    QueryingInput,
    QueryingOutput,
    BuildingInput,
    BuildingOutput,
    StartingInput,
    StartingOutput,
    Over,
}

/// What happened.
pub enum StartEvent {
    /// What the device has to offer, or why that is not known.
    Queried(Result<DeviceConfig, String>),
    /// The action succeeded, or why it did not.
    Done(Result<(), String>),
}

/// What to do next.
#[allow(inconsistent_fields)]
#[derive(Debug)]
pub enum StartAction {
    QueryInput,
    QueryOutput,
    /// Build the input stream, into a ring of `ring` samples.
    BuildInput { format: InputFormat, channels: u16, ring: usize },
    /// Build the output stream, out of a ring of `ring` samples, with fades of `ramp_len` frames.
    BuildOutput { format: OutputFormat, channels: u16, ring: usize, ramp_len: usize },
    StartInput,
    StartOutput,
    /// Start the workers, with the rates of the devices and of the server.
    Ready { input_rate: u32, output_rate: u32, server_rate: u32 },
    Failed(VoiceError),
    /// The event was not awaited.
    Ignored,
}

/// The input formats that are supported.
pub open spec fn input_format_of(k: SampleKind) -> Option<InputFormat> {
    match k {
        SampleKind::I16 => Some(InputFormat::I16),
        SampleKind::F32 => Some(InputFormat::F32),
        _ => None,
    }
}

/// The output formats that are supported.
pub open spec fn output_format_of(k: SampleKind) -> Option<OutputFormat> {
    match k {
        SampleKind::I16 => Some(OutputFormat::I16),
        SampleKind::F32 => Some(OutputFormat::F32),
        SampleKind::U16 => Some(OutputFormat::U16),
        SampleKind::Other(_) => None,
    }
}

/// The name of a format.
pub open spec fn format_name(k: SampleKind) -> Seq<char> {
    match k {
        SampleKind::I16 => "I16"@,
        SampleKind::U16 => "U16"@,
        SampleKind::F32 => "F32"@,
        SampleKind::Other(n) => n@,
    }
}

/// The name of a format.
fn name_of(k: &SampleKind) -> (s: String)
    ensures
        s@ == format_name(*k),
{
    match k {
        SampleKind::I16 => "I16".to_owned(),
        SampleKind::U16 => "U16".to_owned(),
        SampleKind::F32 => "F32".to_owned(),
        SampleKind::Other(n) => n.clone(),
    }
}

/// Frames in a fade of five milliseconds.
pub open spec fn ramp_len_of(rate: u32) -> int {
    rate as int * 5 / 1000
}

/// The start of the audio.
#[derive(Debug)]
pub struct PipelineSetup {
    pub phase: StartPhase,
    pub server_rate: u32,
    pub input: Option<DeviceConfig>,
    pub output: Option<DeviceConfig>,
}

/// Whether the action ends the start with this error.
pub open spec fn start_failed(a: StartAction, detail: Seq<char>) -> bool {
    a matches StartAction::Failed(e) && e.is(ErrorKind::Audio, detail)
}

impl PipelineSetup {
    /// What is known of the devices is what the later phases need.
    pub open spec fn wf(self) -> bool {
        match self.phase {
            StartPhase::QueryingInput => true,
            StartPhase::QueryingOutput => self.input is Some,
            StartPhase::Over => true,
            _ => self.input is Some && self.output is Some,
        }
    }

    /// Begins to start the audio for a server's sample rate.
    pub fn begin(server_rate: u32) -> (r: (PipelineSetup, StartAction))
        ensures
            r.0.wf(),
            r.0 == (PipelineSetup {
                phase: StartPhase::QueryingInput,
                server_rate,
                input: None,
                output: None,
            }),
            r.1 == StartAction::QueryInput,
    {
        let setup = PipelineSetup {
            phase: StartPhase::QueryingInput,
            server_rate,
            input: None,
            output: None,
        };
        (setup, StartAction::QueryInput)
    }

    /// The start in another phase.
    pub open spec fn at(self, phase: StartPhase) -> PipelineSetup {
        PipelineSetup { phase, ..self }
    }

    /// Whether an event leads to `post` and `a`. A format that is not supported ends the start,
    /// and an event that is not awaited changes nothing.
    pub open spec fn stepped(self, event: StartEvent, post: PipelineSetup, a: StartAction) -> bool {
        match (self.phase, event) {
            (StartPhase::QueryingInput, StartEvent::Queried(Ok(c))) => {
                &&& post == (PipelineSetup {
                    phase: StartPhase::QueryingOutput,
                    input: Some(c),
                    ..self
                })
                &&& a == StartAction::QueryOutput
            },
            (StartPhase::QueryingInput, StartEvent::Queried(Err(why))) => {
                &&& post == self.at(StartPhase::Over)
                &&& start_failed(a, "获取输入配置失败: "@ + why@)
            },
            (StartPhase::QueryingOutput, StartEvent::Queried(Ok(c))) => {
                let known = PipelineSetup { output: Some(c), ..self };
                match input_format_of(self.input->0.format) {
                    Some(format) => {
                        &&& post == known.at(StartPhase::BuildingInput)
                        &&& a == (StartAction::BuildInput {
                            format,
                            channels: self.input->0.channels,
                            ring: INPUT_RING_SAMPLES,
                        })
                    },
                    None => {
                        &&& post == known.at(StartPhase::Over)
                        &&& start_failed(
                            a,
                            "不支持的输入格式: "@ + format_name(self.input->0.format),
                        )
                    },
                }
            },
            (StartPhase::QueryingOutput, StartEvent::Queried(Err(why))) => {
                &&& post == self.at(StartPhase::Over)
                &&& start_failed(a, "获取输出配置失败: "@ + why@)
            },
            (StartPhase::BuildingInput, StartEvent::Done(Ok(_))) => match output_format_of(
                self.output->0.format,
            ) {
                Some(format) => {
                    &&& post == self.at(StartPhase::BuildingOutput)
                    &&& a == (StartAction::BuildOutput {
                        format,
                        channels: self.output->0.channels,
                        ring: OUTPUT_RING_SAMPLES,
                        ramp_len: ramp_len_of(self.output->0.sample_rate) as usize,
                    })
                },
                None => {
                    &&& post == self.at(StartPhase::Over)
                    &&& start_failed(
                        a,
                        "不支持的输出格式: "@ + format_name(self.output->0.format),
                    )
                },
            },
            (StartPhase::BuildingInput, StartEvent::Done(Err(why))) => {
                &&& post == self.at(StartPhase::Over)
                &&& start_failed(a, "构建输入流失败: "@ + why@)
            },
            (StartPhase::BuildingOutput, StartEvent::Done(Ok(_))) => {
                &&& post == self.at(StartPhase::StartingInput)
                &&& a == StartAction::StartInput
            },
            (StartPhase::BuildingOutput, StartEvent::Done(Err(why))) => {
                &&& post == self.at(StartPhase::Over)
                &&& start_failed(a, "构建输出流失败: "@ + why@)
            },
            (StartPhase::StartingInput, StartEvent::Done(Ok(_))) => {
                &&& post == self.at(StartPhase::StartingOutput)
                &&& a == StartAction::StartOutput
            },
            (StartPhase::StartingInput, StartEvent::Done(Err(why))) => {
                &&& post == self.at(StartPhase::Over)
                &&& start_failed(a, "启动采集失败: "@ + why@)
            },
            (StartPhase::StartingOutput, StartEvent::Done(Ok(_))) => {
                &&& post == self.at(StartPhase::Over)
                &&& a == (StartAction::Ready {
                    input_rate: self.input->0.sample_rate,
                    output_rate: self.output->0.sample_rate,
                    server_rate: self.server_rate,
                })
            },
            (StartPhase::StartingOutput, StartEvent::Done(Err(why))) => {
                &&& post == self.at(StartPhase::Over)
                &&& start_failed(a, "启动播放失败: "@ + why@)
            },
            _ => post == self && a == StartAction::Ignored,
        }
    }

    /// Ends the start.
    fn fail(&mut self, what: &str, why: &str) -> (a: StartAction)
        ensures
            *final(self) == old(self).at(StartPhase::Over),
            start_failed(a, what@ + why@),
    {
        self.phase = StartPhase::Over;
        StartAction::Failed(VoiceError::Audio(text::join(what, why)))
    }

    /// Takes what the output device has to offer, and goes on to the input stream.
    fn begin_input(&mut self, c: DeviceConfig) -> (a: StartAction)
        requires
            old(self).wf(),
            old(self).phase == StartPhase::QueryingOutput,
        ensures
            final(self).wf(),
            old(self).stepped(StartEvent::Queried(Ok(c)), *final(self), a),
    {
        self.output = Some(c);
        let mut action = StartAction::Ignored;
        let mut unsupported: Option<String> = None;
        if let Some(d) = &self.input {
            let format = match &d.format {
                SampleKind::I16 => Some(InputFormat::I16),
                SampleKind::F32 => Some(InputFormat::F32),
                _ => None,
            };
            match format {
                Some(format) => {
                    action =
                    StartAction::BuildInput {
                        format,
                        channels: d.channels,
                        ring: INPUT_RING_SAMPLES,
                    };
                },
                None => {
                    unsupported = Some(name_of(&d.format));
                },
            }
        }
        match unsupported {
            Some(name) => self.fail("不支持的输入格式: ", name.as_str()),
            None => {
                self.phase = StartPhase::BuildingInput;
                action
            },
        }
    }

    /// Goes on to the output stream.
    fn begin_output(&mut self) -> (a: StartAction)
        requires
            old(self).wf(),
            old(self).phase == StartPhase::BuildingInput,
        ensures
            final(self).wf(),
            old(self).stepped(StartEvent::Done(Ok(())), *final(self), a),
    {
        let mut action = StartAction::Ignored;
        let mut unsupported: Option<String> = None;
        if let Some(d) = &self.output {
            let format = match &d.format {
                SampleKind::I16 => Some(OutputFormat::I16),
                SampleKind::F32 => Some(OutputFormat::F32),
                SampleKind::U16 => Some(OutputFormat::U16),
                SampleKind::Other(_) => None,
            };
            match format {
                Some(format) => {
                    action =
                    StartAction::BuildOutput {
                        format,
                        channels: d.channels,
                        ring: OUTPUT_RING_SAMPLES,
                        ramp_len: (d.sample_rate as u64 * 5 / 1000) as usize,
                    };
                },
                None => {
                    unsupported = Some(name_of(&d.format));
                },
            }
        }
        match unsupported {
            Some(name) => self.fail("不支持的输出格式: ", name.as_str()),
            None => {
                self.phase = StartPhase::BuildingOutput;
                action
            },
        }
    }

    /// Goes on to the workers.
    fn finish(&mut self) -> (a: StartAction)
        requires
            old(self).wf(),
            old(self).phase == StartPhase::StartingOutput,
        ensures
            final(self).wf(),
            old(self).stepped(StartEvent::Done(Ok(())), *final(self), a),
    {
        self.phase = StartPhase::Over;
        let input_rate: u32 = match &self.input {
            Some(d) => d.sample_rate,
            None => 0,
        };
        let output_rate: u32 = match &self.output {
            Some(d) => d.sample_rate,
            None => 0,
        };
        StartAction::Ready { input_rate, output_rate, server_rate: self.server_rate }
    }

    /// Takes an event.
    pub fn step(&mut self, event: StartEvent) -> (a: StartAction)
        requires
            old(self).wf(),
        ensures
            final(self).wf(),
            old(self).stepped(event, *final(self), a),
    {
        match (self.phase, event) {
            (StartPhase::QueryingInput, StartEvent::Queried(r)) => match r {
                Ok(c) => {
                    self.phase = StartPhase::QueryingOutput;
                    self.input = Some(c);
                    StartAction::QueryOutput
                },
                Err(why) => self.fail("获取输入配置失败: ", why.as_str()),
            },
            (StartPhase::QueryingOutput, StartEvent::Queried(r)) => match r {
                Ok(c) => self.begin_input(c),
                Err(why) => self.fail("获取输出配置失败: ", why.as_str()),
            },
            (StartPhase::BuildingInput, StartEvent::Done(r)) => match r {
                Ok(_) => self.begin_output(),
                Err(why) => self.fail("构建输入流失败: ", why.as_str()),
            },
            (StartPhase::BuildingOutput, StartEvent::Done(r)) => match r {
                Ok(_) => {
                    self.phase = StartPhase::StartingInput;
                    StartAction::StartInput
                },
                Err(why) => self.fail("构建输出流失败: ", why.as_str()),
            },
            (StartPhase::StartingInput, StartEvent::Done(r)) => match r {
                Ok(_) => {
                    self.phase = StartPhase::StartingOutput;
                    StartAction::StartOutput
                },
                Err(why) => self.fail("启动采集失败: ", why.as_str()),
            },
            (StartPhase::StartingOutput, StartEvent::Done(r)) => match r {
                Ok(_) => self.finish(),
                Err(why) => self.fail("启动播放失败: ", why.as_str()),
            },
            _ => StartAction::Ignored,
        }
    }
}

/// Every start that fails, fails with an audio error.
pub proof fn law_start_fails_with_audio_errors(
    pre: PipelineSetup,
    event: StartEvent,
    post: PipelineSetup,
    a: StartAction,
)
    requires
        pre.stepped(event, post, a),
    ensures
        a matches StartAction::Failed(e) ==> e.kind_spec() == ErrorKind::Audio && post.phase
            == StartPhase::Over,
{
}

/// The way to a running pipeline: both devices are asked, input before output; then the streams are
/// built and started in the same order; the first device that answers is the input.
pub proof fn law_way_to_a_running_pipeline(
    server_rate: u32,
    r: (PipelineSetup, StartAction),
    a: &mut PipelineSetup,
    input: DeviceConfig,
    s1: StartAction,
    b: &mut PipelineSetup,
    output: DeviceConfig,
    s2: StartAction,
    c: &mut PipelineSetup,
    s3: StartAction,
    d: &mut PipelineSetup,
    s4: StartAction,
    e: &mut PipelineSetup,
    s5: StartAction,
    f: &mut PipelineSetup,
    s6: StartAction,
)
    requires
        call_ensures(PipelineSetup::begin, (server_rate,), r),
        *old(a) == r.0,
        call_ensures(PipelineSetup::step, (a, StartEvent::Queried(Ok(input))), s1),
        *old(b) == *final(a),
        call_ensures(PipelineSetup::step, (b, StartEvent::Queried(Ok(output))), s2),
        *old(c) == *final(b),
        call_ensures(PipelineSetup::step, (c, StartEvent::Done(Ok(()))), s3),
        *old(d) == *final(c),
        call_ensures(PipelineSetup::step, (d, StartEvent::Done(Ok(()))), s4),
        *old(e) == *final(d),
        call_ensures(PipelineSetup::step, (e, StartEvent::Done(Ok(()))), s5),
        *old(f) == *final(e),
        call_ensures(PipelineSetup::step, (f, StartEvent::Done(Ok(()))), s6),
        input.format is I16 || input.format is F32,
        !(output.format is Other),
    ensures
        r.1 == StartAction::QueryInput,
        s1 == StartAction::QueryOutput,
        s2 matches StartAction::BuildInput { format, channels, ring } && channels == input.channels
            && ring == 12_288 && (format == InputFormat::I16 <==> input.format is I16),
        s3 matches StartAction::BuildOutput { format, channels, ring, ramp_len } && channels
            == output.channels && ring == 32_768 && 1000 * ramp_len <= 5 * output.sample_rate < 1000
            * (ramp_len + 1) && (format == OutputFormat::I16 <==> output.format is I16) && (format
            == OutputFormat::F32 <==> output.format is F32),
        s4 == StartAction::StartInput,
        s5 == StartAction::StartOutput,
        s6 == (StartAction::Ready {
            input_rate: input.sample_rate,
            output_rate: output.sample_rate,
            server_rate,
        }),
        final(f).phase == StartPhase::Over,
{
}

/// A format that is not supported ends the start: anything but 16-bit integers and floats for the
/// input, and anything but those and unsigned 16-bit integers for the output. It is named.
pub proof fn law_formats_that_are_refused(
    a: &mut PipelineSetup,
    output: DeviceConfig,
    s: StartAction,
    b: &mut PipelineSetup,
    t: StartAction,
)
    requires
        old(a).phase == StartPhase::QueryingOutput,
        old(a).input is Some,
        call_ensures(PipelineSetup::step, (a, StartEvent::Queried(Ok(output))), s),
        old(b).phase == StartPhase::BuildingInput,
        old(b).output is Some,
        call_ensures(PipelineSetup::step, (b, StartEvent::Done(Ok(()))), t),
    ensures
        s is Failed <==> old(a).input->0.format is U16 || old(a).input->0.format is Other,
        old(a).input->0.format is U16 ==> (s matches StartAction::Failed(VoiceError::Audio(d)) && d@
            == "不支持的输入格式: "@ + "U16"@),
        old(a).input->0.format matches SampleKind::Other(n) ==> (s matches StartAction::Failed(
            VoiceError::Audio(d),
        ) && d@ == "不支持的输入格式: "@ + n@),
        t is Failed <==> old(b).output->0.format is Other,
        old(b).output->0.format matches SampleKind::Other(n) ==> (t matches StartAction::Failed(
            VoiceError::Audio(d),
        ) && d@ == "不支持的输出格式: "@ + n@),
        s is Failed ==> final(a).phase == StartPhase::Over,
        t is Failed ==> final(b).phase == StartPhase::Over,
{
}

/// A step that fails ends the start and says which step it was and why.
pub proof fn law_start_failures(a: &mut PipelineSetup, why: String, event: StartEvent, s: StartAction)
    requires
        call_ensures(PipelineSetup::step, (a, event), s),
        event == StartEvent::Queried(Err(why)) || event == StartEvent::Done(Err(why)),
    ensures
        s is Failed <==> match old(a).phase {
            StartPhase::QueryingInput => event is Queried,
            StartPhase::QueryingOutput => event is Queried,
            StartPhase::Over => false,
            _ => event is Done,
        },
        s matches StartAction::Failed(e) ==> final(a).phase == StartPhase::Over && (e matches
            VoiceError::Audio(d) && d@ == (match old(a).phase {
            StartPhase::QueryingInput => "获取输入配置失败: "@,
            StartPhase::QueryingOutput => "获取输出配置失败: "@,
            StartPhase::BuildingInput => "构建输入流失败: "@,
            StartPhase::BuildingOutput => "构建输出流失败: "@,
            StartPhase::StartingInput => "启动采集失败: "@,
            StartPhase::StartingOutput => "启动播放失败: "@,
            StartPhase::Over => Seq::empty(),
        }) + why@),
        !(s is Failed) ==> s == StartAction::Ignored && *final(a) == *old(a),
{
}

/// Audio needs a device on both sides; the one that is missing is named, the input first.
pub proof fn law_both_devices_are_needed(input: bool, output: bool, r: Result<(), VoiceError>)
    requires
        call_ensures(check_devices, (input, output), r),
    ensures
        r is Ok <==> input && output,
        !input ==> (r matches Err(VoiceError::Audio(d)) && d@ == "未找到输入设备"@),
        input && !output ==> (r matches Err(VoiceError::Audio(d)) && d@ == "未找到输出设备"@),
{
}

} // verus!
