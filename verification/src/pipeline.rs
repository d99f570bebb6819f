//! Capture handoff: from a decoded stream to a pipeline description.
//!
//! Once negotiation has produced a [`CaptureTarget`], the media engine is
//! handed a textual pipeline description: a capture source referencing the
//! stream, fixed-framerate and colour-space normalization, a
//! real-time-budgeted encoder, a muxer and a file sink.  Building that
//! description is pure and verified here; parsing and activating it is the
//! engine's own work.

use vstd::prelude::*;
use vstd::string::StringExecFns;

verus! {

/// The facts negotiation hands to capture: the stream's node identifier
/// and/or the descriptor of a connection to the remote media core.  At
/// least one of the two must be present.
#[derive(Debug, PartialEq, Eq)]
pub struct CaptureTarget {
    /// The live stream's node identifier within the media-routing daemon.
    pub node_id: Option<u32>,
    /// A non-negative descriptor for attaching to the remote media core.
    pub pipewire_fd: Option<i32>,
}

impl CaptureTarget {
    /// A target is usable when it names a node or carries a descriptor,
    /// and any descriptor is non-negative.
    pub open spec fn wf(self) -> bool {
        &&& self.node_id is Some || self.pipewire_fd is Some
        &&& (self.pipewire_fd matches Some(fd) ==> fd >= 0)
    }

    /// A target referencing a stream directly by node identifier.
    pub fn by_node(node_id: u32) -> (r: CaptureTarget)
        ensures
            r.node_id == Some(node_id),
            r.pipewire_fd is None,
            r.wf(),
    {
        CaptureTarget { node_id: Some(node_id), pipewire_fd: None }
    }

    /// A target attaching to the remote media core over `fd`, optionally
    /// also naming the node.
    pub fn by_remote(node_id: Option<u32>, fd: i32) -> (r: CaptureTarget)
        requires
            fd >= 0,
        ensures
            r.node_id == node_id,
            r.pipewire_fd == Some(fd),
            r.wf(),
    {
        CaptureTarget { node_id, pipewire_fd: Some(fd) }
    }
}

/// Declarative capture-pipeline settings, decoupled from negotiation.
#[derive(Debug, PartialEq, Eq)]
pub struct PipelineConfig {
    /// Frames per second the recording is normalized to.
    pub framerate: u32,
    /// Encoder speed/quality budget (higher is faster).
    pub encoder_cpu_used: u32,
    /// Path of the output media file.
    pub sink_path: String,
}

/// A failure to build or to activate the capture pipeline, reported to the
/// negotiator's caller rather than swallowed.
#[derive(Debug, PartialEq, Eq)]
pub enum PipelineError {
    /// The engine refused the pipeline description.
    Construct { detail: String },
    /// The pipeline was built but could not reach the running state.
    Activate { detail: String },
}

/// The character for one decimal digit.
pub open spec fn digit_char(d: nat) -> char {
    if d == 0 {
        '0'
    } else if d == 1 {
        '1'
    } else if d == 2 {
        '2'
    } else if d == 3 {
        '3'
    } else if d == 4 {
        '4'
    } else if d == 5 {
        '5'
    } else if d == 6 {
        '6'
    } else if d == 7 {
        '7'
    } else if d == 8 {
        '8'
    } else {
        '9'
    }
}

/// The decimal rendering of `n`, most significant digit first, with no
/// leading zeros (`0` renders as a single `0`).
pub open spec fn dec_rep(n: nat) -> Seq<char>
    decreases n,
{
    if n < 10 {
        seq![digit_char(n)]
    } else {
        dec_rep(n / 10) + seq![digit_char(n % 10)]
    }
}

/// The one-character text of a single decimal digit.
fn digit_str(d: u32) -> (r: &'static str)
    requires
        d < 10,
    ensures
        r@ == seq![digit_char(d as nat)],
{
    if d == 0 {
        proof {
            reveal_strlit("0");
            assert("0"@ =~= seq![digit_char(0)]);
        }
        "0"
    } else if d == 1 {
        proof {
            reveal_strlit("1");
            assert("1"@ =~= seq![digit_char(1)]);
        }
        "1"
    } else if d == 2 {
        proof {
            reveal_strlit("2");
            assert("2"@ =~= seq![digit_char(2)]);
        }
        "2"
    } else if d == 3 {
        proof {
            reveal_strlit("3");
            assert("3"@ =~= seq![digit_char(3)]);
        }
        "3"
    } else if d == 4 {
        proof {
            reveal_strlit("4");
            assert("4"@ =~= seq![digit_char(4)]);
        }
        "4"
    } else if d == 5 {
        proof {
            reveal_strlit("5");
            assert("5"@ =~= seq![digit_char(5)]);
        }
        "5"
    } else if d == 6 {
        proof {
            reveal_strlit("6");
            assert("6"@ =~= seq![digit_char(6)]);
        }
        "6"
    } else if d == 7 {
        proof {
            reveal_strlit("7");
            assert("7"@ =~= seq![digit_char(7)]);
        }
        "7"
    } else if d == 8 {
        proof {
            reveal_strlit("8");
            assert("8"@ =~= seq![digit_char(8)]);
        }
        "8"
    } else {
        proof {
            reveal_strlit("9");
            assert("9"@ =~= seq![digit_char(9)]);
        }
        "9"
    }
}

/// Renders `n` in decimal.
pub fn u32_to_dec(n: u32) -> (r: String)
    ensures
        r@ == dec_rep(n as nat),
    decreases n,
{
    if n < 10 {
        digit_str(n).to_owned()
    } else {
        let mut s = u32_to_dec(n / 10);
        let d = digit_str(n % 10);
        s.append(d);
        proof {
            assert(n as nat / 10 == (n / 10) as nat);
            assert(n as nat % 10 == (n % 10) as nat);
        }
        s
    }
}

/// The source stage of the pipeline description: by bare node identifier,
/// or over a descriptor to the remote media core.
pub open spec fn spec_source_description(t: CaptureTarget) -> Seq<char> {
    match t.pipewire_fd {
        Some(fd) => match t.node_id {
            Some(id) => "pipewiresrc fd="@ + dec_rep(fd as nat) + " path="@ + dec_rep(id as nat),
            None => "pipewiresrc fd="@ + dec_rep(fd as nat),
        },
        None => match t.node_id {
            Some(id) => "pipewiresrc do-timestamp=true keepalive-time=1000 path="@ + dec_rep(
                id as nat,
            ),
            None => Seq::<char>::empty(),
        },
    }
}

/// The whole pipeline description: source, framerate normalization,
/// colour-space normalization, encoder, muxer and file sink.
pub open spec fn spec_pipeline_description(t: CaptureTarget, cfg: PipelineConfig) -> Seq<char> {
    spec_source_description(t) + " ! videorate ! video/x-raw,framerate="@ + dec_rep(
        cfg.framerate as nat,
    ) + "/1 ! videoconvert chroma-mode=none dither=none matrix-mode=output-only ! queue ! vp8enc cpu-used="@
        + dec_rep(cfg.encoder_cpu_used as nat)
        + " max-quantizer=17 deadline=1 keyframe-mode=disabled threads=8 static-threshold=1000 buffer-size=20000 ! queue ! webmmux ! filesink location="@
        + cfg.sink_path@
}

/// Builds the pipeline description for `target` under the settings `cfg`.
pub fn build_pipeline_description(target: &CaptureTarget, cfg: &PipelineConfig) -> (r: String)
    requires
        target.wf(),
    ensures
        r@ == spec_pipeline_description(*target, *cfg),
{
    let mut s: String = String::new();
    match target.pipewire_fd {
        Some(fd) => {
            s.append("pipewiresrc fd=");
            let fd_dec = u32_to_dec(fd as u32);
            proof {
                assert((fd as u32) as nat == fd as nat);
            }
            s.append(fd_dec.as_str());
            match target.node_id {
                Some(id) => {
                    s.append(" path=");
                    let id_dec = u32_to_dec(id);
                    s.append(id_dec.as_str());
                },
                None => {},
            }
        },
        None => {
            s.append("pipewiresrc do-timestamp=true keepalive-time=1000 path=");
            match target.node_id {
                Some(id) => {
                    let id_dec = u32_to_dec(id);
                    s.append(id_dec.as_str());
                },
                None => {},
            }
        },
    }
    s.append(" ! videorate ! video/x-raw,framerate=");
    let fr_dec = u32_to_dec(cfg.framerate);
    s.append(fr_dec.as_str());
    s.append("/1 ! videoconvert chroma-mode=none dither=none matrix-mode=output-only ! queue ! vp8enc cpu-used=");
    let cpu_dec = u32_to_dec(cfg.encoder_cpu_used);
    s.append(cpu_dec.as_str());
    s.append(
        " max-quantizer=17 deadline=1 keyframe-mode=disabled threads=8 static-threshold=1000 buffer-size=20000 ! queue ! webmmux ! filesink location=",
    );
    s.append(cfg.sink_path.as_str());
    proof {
        assert(s@ =~= spec_pipeline_description(*target, *cfg));
    }
    s
}

} // verus!
