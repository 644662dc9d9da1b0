//! The chat-side data shapes and the request builders for the chat service:
//! each builder renders, byte for byte, the JSON request the service reads
//! on its standard input.  The rendering, and in particular the string
//! escaping, is pinned by spec functions over the UTF-8 bytes of the
//! fields.

use vstd::prelude::*;

use vstd::string::StringSliceAdditionalSpecFns;
use vstd::utf8::encode_utf8;

use crate::lit::{
    s_j_attach_close, s_j_attach_open, s_j_filename, s_j_list, s_j_members, s_j_message,
    s_j_name_open, s_j_read_close, s_j_read_open, s_j_send_close, s_j_send_open, s_j_title,
    s_j_topic, s_kw_null, s_x_esc_b, s_x_esc_bs, s_x_esc_f, s_x_esc_n, s_x_esc_quote, s_x_esc_r,
    s_x_esc_t, s_x_esc_u00, v_j_attach_close, v_j_attach_open, v_j_filename, v_j_list,
    v_j_members, v_j_message, v_j_name_open, v_j_read_close, v_j_read_open, v_j_send_close,
    v_j_send_open, v_j_title, v_j_topic, v_kw_null,
};
use crate::util::{hex_digit, push_bytes, push_vec};

verus! {

// ---------------------------------------------------------------------------
// Data shapes
// ---------------------------------------------------------------------------
/// The channel a chat call addresses: the conversation name and, when they
/// differ from the defaults, the members type and the topic name.
pub struct ChannelParams {
    pub name: String,
    pub members_type: Option<String>,
    pub topic_name: Option<String>,
}

/// One call of the chat service: a method word and its optional parameters.
pub struct APIRPC<T> {
    pub method: String,
    pub params: Option<T>,
}

/// A parameter wrapper: the service expects every parameter set under an
/// `options` key.
pub struct OptionsOnly<T> {
    pub options: T,
}

/// Parameters of a conversation read: the channel alone.
pub struct ReadConvParams {
    pub channel: ChannelParams,
}

/// Model of a channel: the UTF-8 bytes of each field.
pub ghost struct GChannel {
    pub name: Seq<u8>,
    pub members_type: Option<Seq<u8>>,
    pub topic_name: Option<Seq<u8>>,
}

impl View for ChannelParams {
    type V = GChannel;

    open spec fn view(&self) -> GChannel {
        GChannel {
            name: encode_utf8(self.name@),
            members_type: match &self.members_type {
                Some(m) => Some(encode_utf8(m@)),
                None => None,
            },
            topic_name: match &self.topic_name {
                Some(t) => Some(encode_utf8(t@)),
                None => None,
            },
        }
    }
}

impl ChannelParams {
    /// A channel with a name alone, the other fields at their defaults.
    pub fn named(name: String) -> (c: ChannelParams)
        ensures
            c@ == (GChannel {
                name: encode_utf8(name@),
                members_type: None::<Seq<u8>>,
                topic_name: None::<Seq<u8>>,
            }),
    {
        ChannelParams { name, members_type: None, topic_name: None }
    }
}

/// The `list` call value: no parameters.
pub fn list_rpc() -> (r: APIRPC<()>)
    ensures
        r.method@ == seq!['l', 'i', 's', 't'],
        r.params is None,
{
    proof {
        reveal_strlit("list");
    }
    APIRPC { method: String::from_str("list"), params: None }
}

/// The `read` call value for one channel.
pub fn read_conv_rpc(channel: ChannelParams) -> (r: APIRPC<OptionsOnly<ReadConvParams>>)
    ensures
        r.method@ == seq!['r', 'e', 'a', 'd'],
        r.params matches Some(p) && p.options.channel == channel,
{
    proof {
        reveal_strlit("read");
    }
    APIRPC {
        method: String::from_str("read"),
        params: Some(OptionsOnly { options: ReadConvParams { channel } }),
    }
}

// ---------------------------------------------------------------------------
// JSON string escaping
// ---------------------------------------------------------------------------
/// The escape of one byte inside a JSON string: quote and backslash get a
/// backslash, the named control characters their short forms, the remaining
/// control bytes a four-digit escape, and every other byte passes through
/// (multi-byte UTF-8 sequences are above the control range and pass
/// unchanged).
pub open spec fn esc_byte(c: u8) -> Seq<u8> {
    if c == 34 {
        s_x_esc_quote()
    } else if c == 92 {
        s_x_esc_bs()
    } else if c == 8 {
        s_x_esc_b()
    } else if c == 9 {
        s_x_esc_t()
    } else if c == 10 {
        s_x_esc_n()
    } else if c == 12 {
        s_x_esc_f()
    } else if c == 13 {
        s_x_esc_r()
    } else if c < 32 {
        s_x_esc_u00() + seq![hex_digit(c / 16), hex_digit(c % 16)]
    } else {
        seq![c]
    }
}

/// The escapes of the first `k` bytes.
pub open spec fn esc_upto(b: Seq<u8>, k: int) -> Seq<u8>
    decreases k,
{
    if k <= 0 {
        Seq::empty()
    } else {
        esc_upto(b, k - 1) + (if 0 <= k - 1 < b.len() {
            esc_byte(b[k - 1])
        } else {
            Seq::empty()
        })
    }
}

/// The JSON escape of a whole byte string.
pub open spec fn spec_json_escape(b: Seq<u8>) -> Seq<u8> {
    esc_upto(b, b.len() as int)
}

/// A quoted, escaped JSON string.
pub open spec fn spec_json_string(b: Seq<u8>) -> Seq<u8> {
    seq![34u8] + spec_json_escape(b) + seq![34u8]
}

/// An optional field: `null`, or a quoted string.
pub open spec fn spec_json_opt_string(o: Option<Seq<u8>>) -> Seq<u8> {
    match o {
        None => s_kw_null(),
        Some(b) => spec_json_string(b),
    }
}

/// Appends the JSON escape of `b`.
pub fn push_json_escape(out: &mut Vec<u8>, b: &[u8])
    ensures
        final(out)@ == old(out)@ + spec_json_escape(b@),
{
    let ghost base = out@;
    let mut k: usize = 0;
    proof {
        assert(base + esc_upto(b@, 0) =~= base);
    }
    while k < b.len()
        invariant
            k <= b.len(),
            out@ == base + esc_upto(b@, k as int),
        decreases b.len() - k,
    {
        let c = b[k];
        if c == 34 {
            out.push(92);
            out.push(34);
        } else if c == 92 {
            out.push(92);
            out.push(92);
        } else if c == 8 {
            out.push(92);
            out.push(98);
        } else if c == 9 {
            out.push(92);
            out.push(116);
        } else if c == 10 {
            out.push(92);
            out.push(110);
        } else if c == 12 {
            out.push(92);
            out.push(102);
        } else if c == 13 {
            out.push(92);
            out.push(114);
        } else if c < 32 {
            out.push(92);
            out.push(117);
            out.push(48);
            out.push(48);
            let hi = c / 16;
            let lo = c % 16;
            out.push(
                if hi < 10 {
                    48 + hi
                } else {
                    87 + hi
                },
            );
            out.push(
                if lo < 10 {
                    48 + lo
                } else {
                    87 + lo
                },
            );
        } else {
            out.push(c);
        }
        proof {
            assert(out@ =~= base + esc_upto(b@, k as int) + esc_byte(b@[k as int]));
        }
        k = k + 1;
    }
}

/// Appends a quoted, escaped JSON string.
pub fn push_json_string(out: &mut Vec<u8>, b: &[u8])
    ensures
        final(out)@ == old(out)@ + spec_json_string(b@),
{
    out.push(34);
    push_json_escape(out, b);
    out.push(34);
    proof {
        assert(out@ =~= old(out)@ + spec_json_string(b@));
    }
}

/// Appends `null` or a quoted string for an optional field.
pub fn push_json_opt_string(out: &mut Vec<u8>, o: &Option<String>)
    ensures
        final(out)@ == old(out)@ + spec_json_opt_string(
            match o {
                Some(m) => Some(encode_utf8(m@)),
                None => None,
            },
        ),
{
    match o {
        Some(m) => push_json_string(out, m.as_str().as_bytes()),
        None => push_bytes(out, v_kw_null().as_slice()),
    }
}

// ---------------------------------------------------------------------------
// Requests
// ---------------------------------------------------------------------------
/// The JSON object of a channel, keys in declaration order, optional fields
/// rendered as `null`.
pub open spec fn spec_channel_json(c: GChannel) -> Seq<u8> {
    s_j_name_open() + spec_json_escape(c.name) + s_j_members() + spec_json_opt_string(
        c.members_type,
    ) + s_j_topic() + spec_json_opt_string(c.topic_name) + seq![125u8]
}

/// Appends the JSON object of a channel.
pub fn push_channel_json(out: &mut Vec<u8>, c: &ChannelParams)
    ensures
        final(out)@ == old(out)@ + spec_channel_json(c@),
{
    push_bytes(out, v_j_name_open().as_slice());
    push_json_escape(out, c.name.as_str().as_bytes());
    push_bytes(out, v_j_members().as_slice());
    push_json_opt_string(out, &c.members_type);
    push_bytes(out, v_j_topic().as_slice());
    push_json_opt_string(out, &c.topic_name);
    out.push(125);
    proof {
        assert(out@ =~= old(out)@ + spec_channel_json(c@));
    }
}

/// The request that sends a message to a channel.
pub open spec fn spec_send_msg_request(c: GChannel, msg: Seq<u8>) -> Seq<u8> {
    s_j_send_open() + spec_channel_json(c) + s_j_message() + spec_json_escape(msg)
        + s_j_send_close()
}

/// Builds the `send` request: the exact bytes the chat service reads to
/// post `msg` to `channel`.
pub fn send_msg_request(channel: &ChannelParams, msg: &str) -> (r: Vec<u8>)
    ensures
        r@ == spec_send_msg_request(channel@, msg.spec_bytes()),
{
    let mut out = v_j_send_open();
    push_channel_json(&mut out, channel);
    push_bytes(&mut out, v_j_message().as_slice());
    push_json_escape(&mut out, msg.as_bytes());
    push_bytes(&mut out, v_j_send_close().as_slice());
    proof {
        assert(out@ =~= spec_send_msg_request(channel@, msg.spec_bytes()));
    }
    out
}

/// The request that uploads an attachment to a channel.
pub open spec fn spec_upload_attachment_request(
    c: GChannel,
    filename: Seq<u8>,
    title: Seq<u8>,
) -> Seq<u8> {
    s_j_attach_open() + spec_channel_json(c) + s_j_filename() + spec_json_escape(filename)
        + s_j_title() + spec_json_escape(title) + s_j_attach_close()
}

/// Builds the `attach` request for `filename` with `title`.
pub fn upload_attachment_request(channel: &ChannelParams, filename: &str, title: &str) -> (r:
    Vec<u8>)
    ensures
        r@ == spec_upload_attachment_request(
            channel@,
            filename.spec_bytes(),
            title.spec_bytes(),
        ),
{
    let mut out = v_j_attach_open();
    push_channel_json(&mut out, channel);
    push_bytes(&mut out, v_j_filename().as_slice());
    push_json_escape(&mut out, filename.as_bytes());
    push_bytes(&mut out, v_j_title().as_slice());
    push_json_escape(&mut out, title.as_bytes());
    push_bytes(&mut out, v_j_attach_close().as_slice());
    proof {
        assert(out@ =~= spec_upload_attachment_request(
            channel@,
            filename.spec_bytes(),
            title.spec_bytes(),
        ));
    }
    out
}

/// The request that reads a conversation.
pub open spec fn spec_read_conv_request(c: GChannel) -> Seq<u8> {
    s_j_read_open() + spec_channel_json(c) + s_j_read_close()
}

/// Builds the `read` request for a channel.
pub fn read_conv_request(channel: &ChannelParams) -> (r: Vec<u8>)
    ensures
        r@ == spec_read_conv_request(channel@),
{
    let mut out = v_j_read_open();
    push_channel_json(&mut out, channel);
    push_bytes(&mut out, v_j_read_close().as_slice());
    proof {
        assert(out@ =~= spec_read_conv_request(channel@));
    }
    out
}

/// The request that lists the conversations of the inbox.
pub open spec fn spec_list_request() -> Seq<u8> {
    s_j_list()
}

/// Builds the `list` request.
pub fn list_request() -> (r: Vec<u8>)
    ensures
        r@ == spec_list_request(),
{
    v_j_list()
}

} // verus!
