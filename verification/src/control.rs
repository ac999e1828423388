use vstd::prelude::*;

use crate::error::ViewerError;
use crate::proto::envelope::{
    config_check, f32_bits_at_most_zero, first_unknown_codec, ValidateConfig, ValidateHello,
};
use crate::proto::error::ProtoError;
use crate::proto::messages::{DisplayInfo, Envelope, Payload, SessionConfig, SessionHello, PROTOCOL_VERSION};
use crate::proto::types::{format_uuid, lemma_uuid_text_is_uuid, random_uuid_value, uuid_text};
use crate::text::{decimal, decimal_text};

verus! {

/// Oldest protocol version the viewer accepts from the host.
pub const MIN_REQUIRED_VERSION: u32 = 1;

/// The position of a payload variant in the envelope's payload enum.
pub open spec fn payload_index(p: Payload) -> nat {
    match p {
        Payload::Hello(_) => 0,
        Payload::Config(_) => 1,
        Payload::VsyncReport(_) => 2,
        Payload::ReactiveStats(_) => 3,
        Payload::PeriodicStats(_) => 4,
        Payload::KeyframeRequest(_) => 5,
        Payload::BitrateAdjust(_) => 6,
        Payload::StreamReconfigure(_) => 7,
        Payload::Error(_) => 8,
    }
}

fn payload_position(p: &Payload) -> (i: u64)
    ensures
        i == payload_index(*p),
{
    match p {
        Payload::Hello(_) => 0,
        Payload::Config(_) => 1,
        Payload::VsyncReport(_) => 2,
        Payload::ReactiveStats(_) => 3,
        Payload::PeriodicStats(_) => 4,
        Payload::KeyframeRequest(_) => 5,
        Payload::BitrateAdjust(_) => 6,
        Payload::StreamReconfigure(_) => 7,
        Payload::Error(_) => 8,
    }
}

/// `r` failed with a network error whose detail is `text`.
pub open spec fn network_failure<T>(r: Result<T, ViewerError>, text: Seq<char>) -> bool {
    r matches Err(e) && e matches ViewerError::Network(m) && m@ == text
}

/// The first check of an outgoing hello that fails, as the text of its error, for a
/// hello with the given display, codec list and a session nonce of `nonce_len`
/// characters (the version and the viewer id are always acceptable).
pub open spec fn hello_problem(display: DisplayInfo, codecs: Seq<String>, nonce_len: nat) -> Option<
    Seq<char>,
> {
    if codecs.len() == 0 {
        Some("Missing required field: "@ + "supported_codecs"@)
    } else if first_unknown_codec(codecs) is Some {
        Some(
            "Invalid field '"@ + "supported_codecs"@ + "': "@ + ("Unsupported codec '"@
                + codecs[first_unknown_codec(codecs).unwrap()]@ + "'; must be 'hevc' or 'h264'"@),
        )
    } else if nonce_len == 0 {
        Some("Missing required field: "@ + "session_nonce"@)
    } else if display.width == 0 || display.height == 0 {
        Some(
            "Invalid field '"@ + "display"@ + "': "@
                + "Display dimensions must be greater than zero"@,
        )
    } else if f32_bits_at_most_zero(display.refresh_rate_bits) {
        Some(
            "Invalid field '"@ + "display.refresh_rate"@ + "': "@
                + "Refresh rate must be positive"@,
        )
    } else {
        None
    }
}

/// `r` is what building the hello from these values gives: the hello itself when no
/// check fails, else a network error that carries the failed check's text.
pub open spec fn hello_outcome(
    viewer: u128,
    display: DisplayInfo,
    codecs: Seq<String>,
    max_decode_bitrate_kbps: u32,
    hw_decode_available: bool,
    nonce: Seq<char>,
    r: Result<SessionHello, ViewerError>,
) -> bool {
    match hello_problem(display, codecs, nonce.len()) {
        None => r matches Ok(h) && {
            &&& h.protocol_version == PROTOCOL_VERSION
            &&& h.min_required_version == MIN_REQUIRED_VERSION
            &&& h.viewer_id@ == uuid_text(viewer)
            &&& h.supported_codecs@ == codecs
            &&& h.max_decode_bitrate_kbps == max_decode_bitrate_kbps
            &&& h.display == Some(display)
            &&& h.hw_decode_available == hw_decode_available
            &&& h.session_nonce@ == nonce
        },
        Some(text) => network_failure(r, "SessionHello is invalid: "@ + text),
    }
}

/// The viewer's side of the session handshake on the control stream.
#[derive(Debug)]
pub struct ViewerControlClient {
    viewer_id: u128,
}

impl ViewerControlClient {
    /// The viewer's UUID value.
    pub closed spec fn viewer_spec(&self) -> u128 {
        self.viewer_id
    }

    /// A client speaking for the viewer with UUID value `viewer_id`.
    pub fn new(viewer_id: u128) -> (c: Self)
        ensures
            c.viewer_spec() == viewer_id,
    {
        ViewerControlClient { viewer_id }
    }

    /// The viewer's UUID value.
    pub fn viewer_id(&self) -> (id: u128)
        ensures
            id == self.viewer_spec(),
    {
        self.viewer_id
    }

    /// The hello this viewer opens the session with, after checking it as the host will.
    /// A hello that fails its own checks is reported as a network error.
    pub fn build_hello(
        &self,
        display: DisplayInfo,
        supported_codecs: Vec<String>,
        max_decode_bitrate_kbps: u32,
        hw_decode_available: bool,
        session_nonce: String,
    ) -> (r: Result<SessionHello, ViewerError>)
        ensures
            hello_outcome(
                self.viewer_spec(),
                display,
                supported_codecs@,
                max_decode_bitrate_kbps,
                hw_decode_available,
                session_nonce@,
                r,
            ),
    {
        let hello = SessionHello {
            protocol_version: PROTOCOL_VERSION,
            min_required_version: MIN_REQUIRED_VERSION,
            viewer_id: format_uuid(self.viewer_id),
            supported_codecs,
            max_decode_bitrate_kbps,
            display: Some(display),
            hw_decode_available,
            session_nonce,
        };
        proof {
            lemma_uuid_text_is_uuid(self.viewer_id);
        }
        match hello.validate(PROTOCOL_VERSION) {
            Ok(()) => Ok(hello),
            Err(e) => {
                let detail = e.message();
                Err(
                    ViewerError::Network(
                        crate::error::join_text("SessionHello is invalid: ", detail.as_str()),
                    ),
                )
            },
        }
    }

    /// The hello for a new session: as [`Self::build_hello`], with a fresh random UUID
    /// as the session nonce.
    pub fn session_hello(
        &self,
        display: DisplayInfo,
        supported_codecs: Vec<String>,
        max_decode_bitrate_kbps: u32,
        hw_decode_available: bool,
    ) -> (r: Result<SessionHello, ViewerError>)
        ensures
            exists|v: u128|
                hello_outcome(
                    self.viewer_spec(),
                    display,
                    supported_codecs@,
                    max_decode_bitrate_kbps,
                    hw_decode_available,
                    #[trigger] uuid_text(v),
                    r,
                ),
            r is Ok <==> hello_problem(display, supported_codecs@, 36) is None,
    {
        let v = random_uuid_value();
        let nonce = format_uuid(v);
        let r = self.build_hello(
            display,
            supported_codecs,
            max_decode_bitrate_kbps,
            hw_decode_available,
            nonce,
        );
        assert(uuid_text(v).len() == 36);
        r
    }

    /// Takes the host's reply: a valid configuration is accepted; an error reply, a
    /// reply of another kind, or a configuration that fails its checks is reported as a
    /// network error.
    pub fn accept_config(&self, reply: Envelope) -> (r: Result<SessionConfig, ViewerError>)
        ensures
            reply.payload matches Some(Payload::Config(c)) ==> match config_check(c) {
                None => r matches Ok(got) && got == c,
                Some((field, reason)) => network_failure(
                    r,
                    "Received invalid SessionConfig: "@ + ("Invalid field '"@ + field + "': "@ + reason),
                ),
            },
            reply.payload matches Some(Payload::Error(err)) ==> network_failure(
                r,
                "Host rejected session: code="@ + decimal(err.code as nat) + " msg="@
                    + err.message@,
            ),
            reply.payload is None ==> network_failure(
                r,
                "Expected SessionConfig, got unexpected variant: None"@,
            ),
            reply.payload matches Some(p) ==> (!(p is Config) && !(p is Error) ==> network_failure(
                r,
                "Expected SessionConfig, got unexpected variant: Some(Discriminant("@ + decimal(
                    payload_index(p),
                ) + "))"@,
            )),
            r is Ok ==> reply.payload is Some,
    {
        match reply.payload {
            Some(Payload::Config(config)) => match config.validate() {
                Ok(()) => Ok(config),
                Err(e) => {
                    let detail = e.message();
                    Err(
                        ViewerError::Network(
                            crate::error::join_text("Received invalid SessionConfig: ", detail.as_str()),
                        ),
                    )
                },
            },
            Some(Payload::Error(err)) => {
                let mut m = String::from_str("Host rejected session: code=");
                let code = decimal_text(err.code as u64);
                m.append(code.as_str());
                m.append(" msg=");
                m.append(err.message.as_str());
                Err(ViewerError::Network(m))
            },
            None => Err(
                ViewerError::Network(
                    String::from_str("Expected SessionConfig, got unexpected variant: None"),
                ),
            ),
            Some(other) => {
                let mut m = String::from_str(
                    "Expected SessionConfig, got unexpected variant: Some(Discriminant(",
                );
                let index = decimal_text(payload_position(&other));
                m.append(index.as_str());
                m.append("))");
                Err(ViewerError::Network(m))
            },
        }
    }
}

} // verus!
