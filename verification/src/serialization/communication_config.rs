//! The transports and serialization formats on offer, and the pair selected.

use vstd::prelude::*;
use vstd::string::*;
use crate::text::{join, join3, u64_text};

verus! {

/// A way to carry messages between backend and frontend.
#[derive(Debug, Clone, Copy, PartialEq, Eq, Structural)]
pub enum TransportProtocol {
    /// Full-duplex communication over a single TCP connection.
    WebSocket,
    /// Request and response.
    HttpRest,
    /// Streaming from server to client.
    ServerSentEvents,
    /// A high-performance RPC framework.
    Grpc,
}

impl TransportProtocol {
    pub open spec fn spec_name(self) -> Seq<char> {
        match self {
            TransportProtocol::WebSocket => "WebSocket"@,
            TransportProtocol::HttpRest => "HTTP/REST"@,
            TransportProtocol::ServerSentEvents => "Server-Sent Events (SSE)"@,
            TransportProtocol::Grpc => "gRPC"@,
        }
    }

    pub open spec fn spec_description(self) -> Seq<char> {
        match self {
            TransportProtocol::WebSocket => "Full-duplex, low-latency, persistent connection"@,
            TransportProtocol::HttpRest => "Request-response, stateless, widely supported"@,
            TransportProtocol::ServerSentEvents => "Server-to-client streaming, simple protocol"@,
            TransportProtocol::Grpc => "Binary protocol, streaming, strongly typed"@,
        }
    }

    pub open spec fn spec_library(self) -> Seq<char> {
        match self {
            TransportProtocol::WebSocket => "tokio-tungstenite"@,
            TransportProtocol::HttpRest => "tiny_http / reqwest"@,
            TransportProtocol::ServerSentEvents => "axum / actix-web"@,
            TransportProtocol::Grpc => "tonic"@,
        }
    }

    pub open spec fn spec_port(self) -> u16 {
        match self {
            TransportProtocol::WebSocket => 9000,
            TransportProtocol::HttpRest => 8080,
            TransportProtocol::ServerSentEvents => 8080,
            TransportProtocol::Grpc => 50051,
        }
    }

    /// The name of the transport.
    pub fn name(&self) -> (text: &'static str)
        ensures
            text@ == self.spec_name(),
    {
        match self {
            TransportProtocol::WebSocket => "WebSocket",
            TransportProtocol::HttpRest => "HTTP/REST",
            TransportProtocol::ServerSentEvents => "Server-Sent Events (SSE)",
            TransportProtocol::Grpc => "gRPC",
        }
    }

    /// What the transport is good for.
    pub fn description(&self) -> (text: &'static str)
        ensures
            text@ == self.spec_description(),
    {
        match self {
            TransportProtocol::WebSocket => "Full-duplex, low-latency, persistent connection",
            TransportProtocol::HttpRest => "Request-response, stateless, widely supported",
            TransportProtocol::ServerSentEvents => "Server-to-client streaming, simple protocol",
            TransportProtocol::Grpc => "Binary protocol, streaming, strongly typed",
        }
    }

    /// The library that implements the transport.
    pub fn library(&self) -> (text: &'static str)
        ensures
            text@ == self.spec_library(),
    {
        match self {
            TransportProtocol::WebSocket => "tokio-tungstenite",
            TransportProtocol::HttpRest => "tiny_http / reqwest",
            TransportProtocol::ServerSentEvents => "axum / actix-web",
            TransportProtocol::Grpc => "tonic",
        }
    }

    /// The port that the transport listens on by default.
    pub fn port(&self) -> (port: u16)
        ensures
            port == self.spec_port(),
    {
        match self {
            TransportProtocol::WebSocket => 9000,
            TransportProtocol::HttpRest => 8080,
            TransportProtocol::ServerSentEvents => 8080,
            TransportProtocol::Grpc => 50051,
        }
    }
}

/// A way to write messages down.
#[derive(Debug, Clone, Copy, PartialEq, Eq, Structural)]
pub enum SerializationFormat {
    /// JavaScript Object Notation.
    Json,
    /// A binary serialization format.
    MessagePack,
    /// Google's interface definition language.
    Protobuf,
    /// Concise Binary Object Representation.
    Cbor,
}

impl SerializationFormat {
    pub open spec fn spec_name(self) -> Seq<char> {
        match self {
            SerializationFormat::Json => "JSON"@,
            SerializationFormat::MessagePack => "MessagePack"@,
            SerializationFormat::Protobuf => "Protocol Buffers"@,
            SerializationFormat::Cbor => "CBOR"@,
        }
    }

    pub open spec fn spec_description(self) -> Seq<char> {
        match self {
            SerializationFormat::Json => "Human-readable, widely supported, text-based"@,
            SerializationFormat::MessagePack => "Binary format, compact, fast serialization"@,
            SerializationFormat::Protobuf => "Schema-based, efficient, strongly typed"@,
            SerializationFormat::Cbor => "Binary JSON alternative, RFC 7049 standard"@,
        }
    }

    pub open spec fn spec_library(self) -> Seq<char> {
        match self {
            SerializationFormat::Json => "serde_json"@,
            SerializationFormat::MessagePack => "rmp-serde"@,
            SerializationFormat::Protobuf => "prost / protobuf"@,
            SerializationFormat::Cbor => "serde_cbor"@,
        }
    }

    pub open spec fn spec_characteristics(self) -> Seq<char> {
        match self {
            SerializationFormat::Json => "Text, verbose, interoperable"@,
            SerializationFormat::MessagePack => "Binary, compact, fast"@,
            SerializationFormat::Protobuf => "Binary, schema-based, efficient"@,
            SerializationFormat::Cbor => "Binary, self-describing, standard"@,
        }
    }

    /// The name of the format.
    pub fn name(&self) -> (text: &'static str)
        ensures
            text@ == self.spec_name(),
    {
        match self {
            SerializationFormat::Json => "JSON",
            SerializationFormat::MessagePack => "MessagePack",
            SerializationFormat::Protobuf => "Protocol Buffers",
            SerializationFormat::Cbor => "CBOR",
        }
    }

    /// What the format is good for.
    pub fn description(&self) -> (text: &'static str)
        ensures
            text@ == self.spec_description(),
    {
        match self {
            SerializationFormat::Json => "Human-readable, widely supported, text-based",
            SerializationFormat::MessagePack => "Binary format, compact, fast serialization",
            SerializationFormat::Protobuf => "Schema-based, efficient, strongly typed",
            SerializationFormat::Cbor => "Binary JSON alternative, RFC 7049 standard",
        }
    }

    /// The library that implements the format.
    pub fn library(&self) -> (text: &'static str)
        ensures
            text@ == self.spec_library(),
    {
        match self {
            SerializationFormat::Json => "serde_json",
            SerializationFormat::MessagePack => "rmp-serde",
            SerializationFormat::Protobuf => "prost / protobuf",
            SerializationFormat::Cbor => "serde_cbor",
        }
    }

    /// The format in three words.
    pub fn characteristics(&self) -> (text: &'static str)
        ensures
            text@ == self.spec_characteristics(),
    {
        match self {
            SerializationFormat::Json => "Text, verbose, interoperable",
            SerializationFormat::MessagePack => "Binary, compact, fast",
            SerializationFormat::Protobuf => "Binary, schema-based, efficient",
            SerializationFormat::Cbor => "Binary, self-describing, standard",
        }
    }
}

/// The transport and the format selected, among those on offer.
#[derive(Debug, PartialEq)]
pub struct CommunicationConfig {
    pub selected_transport: TransportProtocol,
    pub selected_serialization: SerializationFormat,
}

/// A text, filled with spaces at its end up to `width` characters. A text of
/// that length or more is left as it is.
pub open spec fn padded(text: Seq<char>, width: nat) -> Seq<char>
    decreases width - text.len(),
{
    if text.len() < width {
        padded(text.push(' '), width)
    } else {
        text
    }
}

/// `text`, filled with spaces at its end up to `width` characters.
pub fn pad_right(text: &str, width: usize) -> (cell: String)
    ensures
        cell@ == padded(text@, width as nat),
{
    let mut cell = text.to_owned();
    let mut len = text.unicode_len();
    proof {
        reveal_strlit(" ");
    }
    while len < width
        invariant
            len == cell@.len(),
            padded(cell@, width as nat) == padded(text@, width as nat),
            " "@ == seq![' '],
        decreases width - len,
    {
        let ghost before = cell@;
        cell.append(" ");
        assert(cell@ =~= before.push(' '));
        len = len + 1;
    }
    cell
}

/// The name of an option as a table shows it: marked where it is the selected
/// one, indented by as much where it is not.
pub open spec fn marked(name: Seq<char>, selected: bool) -> Seq<char> {
    if selected {
        "► "@ + name
    } else {
        "  "@ + name
    }
}

/// The row of a transport in the table of transports.
pub open spec fn transport_row(protocol: TransportProtocol, selected: bool) -> Seq<char> {
    "│ "@ + padded(marked(protocol.spec_name(), selected), 21) + " │ "@ + padded(protocol.spec_library(), 18)
        + " │ "@ + padded(crate::text::decimal(protocol.spec_port() as nat), 6) + " │ "@ + padded(
        protocol.spec_description(),
        20,
    ) + " │"@
}

/// The row of a format in the table of formats.
pub open spec fn format_row(format: SerializationFormat, selected: bool) -> Seq<char> {
    "│ "@ + padded(marked(format.spec_name(), selected), 21) + " │ "@ + padded(format.spec_library(), 18)
        + " │ "@ + padded(format.spec_characteristics(), 30) + " │"@
}

/// A line of the summary: a label, and a value filled up to 62 characters.
pub open spec fn summary_row(label: Seq<char>, value: Seq<char>) -> Seq<char> {
    label + padded(value, 62) + " │"@
}

/// The port of the selected transport as the summary shows it.
pub open spec fn port_note(protocol: TransportProtocol) -> Seq<char> {
    crate::text::decimal(protocol.spec_port() as nat) + " ("@ + (if protocol == TransportProtocol::WebSocket {
        "backend-frontend"@
    } else {
        "default"@
    }) + ")"@
}

fn marked_name(name: &str, selected: bool) -> (text: String)
    ensures
        text@ == marked(name@, selected),
{
    if selected {
        join("► ", name)
    } else {
        join("  ", name)
    }
}

fn summary_line(label: &str, value: &str) -> (line: String)
    ensures
        line@ == summary_row(label@, value@),
{
    let cell = pad_right(value, 62);
    join3(label, cell.as_str(), " │")
}

/// The lines that frame a table.
pub const TABLE_TOP: &'static str = "┌─────────────────────────────────────────────────────────────────────────────┐";

pub const TABLE_RULE: &'static str = "├─────────────────────────────────────────────────────────────────────────────┤";

pub const TABLE_BOTTOM: &'static str = "└─────────────────────────────────────────────────────────────────────────────┘";

/// The lines that frame a heading.
pub const BOX_TOP: &'static str = "╔═════════════════════════════════════════════════════════════════════════════╗";

pub const BOX_RULE: &'static str = "╠═════════════════════════════════════════════════════════════════════════════╣";

pub const BOX_BOTTOM: &'static str = "╚═════════════════════════════════════════════════════════════════════════════╝";

/// The table of the transports on offer: its heading, one row for each
/// transport with the selected one marked, and the line that closes it.
pub open spec fn transport_table(selected: TransportProtocol) -> Seq<Seq<char>> {
    seq![
        TABLE_TOP@,
        "│                        TRANSPORT OPTIONS                                    │"@,
        TABLE_RULE@,
        "│ Protocol              │ Library            │ Port   │ Description          │"@,
        "├───────────────────────┼────────────────────┼────────┼──────────────────────┤"@,
        transport_row(TransportProtocol::WebSocket, selected == TransportProtocol::WebSocket),
        transport_row(TransportProtocol::HttpRest, selected == TransportProtocol::HttpRest),
        transport_row(TransportProtocol::ServerSentEvents, selected == TransportProtocol::ServerSentEvents),
        transport_row(TransportProtocol::Grpc, selected == TransportProtocol::Grpc),
        TABLE_BOTTOM@,
    ]
}

/// The table of the formats on offer.
pub open spec fn format_table(selected: SerializationFormat) -> Seq<Seq<char>> {
    seq![
        TABLE_TOP@,
        "│                      SERIALIZATION OPTIONS                                  │"@,
        TABLE_RULE@,
        "│ Format                │ Library            │ Characteristics              │"@,
        "├───────────────────────┼────────────────────┼──────────────────────────────┤"@,
        format_row(SerializationFormat::Json, selected == SerializationFormat::Json),
        format_row(SerializationFormat::MessagePack, selected == SerializationFormat::MessagePack),
        format_row(SerializationFormat::Protobuf, selected == SerializationFormat::Protobuf),
        format_row(SerializationFormat::Cbor, selected == SerializationFormat::Cbor),
        TABLE_BOTTOM@,
    ]
}

/// The summary of what is selected: the transport with its library, port and
/// features, then the format with its library and features.
pub open spec fn selection_table(transport: TransportProtocol, format: SerializationFormat) -> Seq<Seq<char>> {
    seq![
        TABLE_TOP@,
        "│                     SELECTED CONFIGURATION                                  │"@,
        TABLE_RULE@,
        summary_row("│ Transport:    "@, transport.spec_name()),
        summary_row("│   Library:    "@, transport.spec_library()),
        summary_row("│   Port:       "@, port_note(transport)),
        summary_row("│   Features:   "@, transport.spec_description()),
        TABLE_RULE@,
        summary_row("│ Serialization:"@, format.spec_name()),
        summary_row("│   Library:    "@, format.spec_library()),
        summary_row("│   Features:   "@, format.spec_description()),
        TABLE_BOTTOM@,
    ]
}

/// Which formats this build has: JSON, and no other.
pub open spec fn feature_table() -> Seq<Seq<char>> {
    seq![
        BOX_TOP@,
        "║                  SERIALIZATION FEATURE STATUS                               ║"@,
        BOX_RULE@,
        "║ ✓ JSON          │ Enabled  │ Default format for web compatibility            ║"@,
        "║ ✗ MessagePack   │ Disabled │ Add 'msgpack' feature to enable                 ║"@,
        "║ ✗ CBOR          │ Disabled │ Add 'cbor' feature to enable                    ║"@,
        "║ ✗ Protobuf      │ Disabled │ Add 'protobuf' feature to enable                ║"@,
        BOX_RULE@,
        "║ Build with: cargo build --features 'all-formats'                            ║"@,
        "║ Or: cargo build --features 'msgpack cbor'                                   ║"@,
        BOX_BOTTOM@,
        ""@,
    ]
}

/// What comes before the tables.
pub open spec fn title_lines() -> Seq<Seq<char>> {
    seq![
        ""@,
        BOX_TOP@,
        "║              BACKEND-FRONTEND COMMUNICATION CONFIGURATION                   ║"@,
        BOX_BOTTOM@,
        ""@,
    ]
}

/// Everything that is shown of a configuration: the title, the three tables
/// with an empty line after each, what is to be known of the formats, and
/// which of them this build has.
pub open spec fn display_lines(transport: TransportProtocol, format: SerializationFormat) -> Seq<Seq<char>> {
    title_lines() + transport_table(transport) + seq![""@] + format_table(format) + seq![""@] + selection_table(
        transport,
        format,
    ) + seq![""@] + crate::serialization::serialization::details_lines() + feature_table()
}

/// The text of each line of a sequence.
pub open spec fn texts(lines: Seq<String>) -> Seq<Seq<char>> {
    lines.map_values(|l: String| l@)
}

/// `lines` with `line` at its end.
fn push_line(lines: &mut Vec<String>, line: &str)
    ensures
        texts(final(lines)@) == texts(old(lines)@).push(line@),
{
    lines.push(line.to_owned());
    assert(texts(lines@) =~= texts(old(lines)@).push(line@));
}

/// `lines` with `line` at its end.
fn push_owned(lines: &mut Vec<String>, line: String)
    ensures
        texts(final(lines)@) == texts(old(lines)@).push(line@),
{
    lines.push(line);
    assert(texts(lines@) =~= texts(old(lines)@).push(line@));
}

/// `lines` with all of `more` at its end.
fn push_all(lines: &mut Vec<String>, more: Vec<String>)
    ensures
        texts(final(lines)@) == texts(old(lines)@) + texts(more@),
{
    let mut i: usize = 0;
    while i < more.len()
        invariant
            i <= more@.len(),
            texts(lines@) == texts(old(lines)@) + texts(more@).take(i as int),
        decreases more@.len() - i,
    {
        let ghost before = texts(lines@);
        push_owned(lines, more[i].clone());
        assert(texts(more@)[i as int] == more@[i as int]@);
        assert(texts(lines@) =~= texts(old(lines)@) + texts(more@).take(i + 1));
        i = i + 1;
    }
    assert(texts(more@).take(i as int) =~= texts(more@));
}

fn no_lines() -> (lines: Vec<String>)
    ensures
        texts(lines@) == Seq::<Seq<char>>::empty(),
{
    let lines: Vec<String> = Vec::new();
    assert(texts(lines@) =~= Seq::<Seq<char>>::empty());
    lines
}

impl CommunicationConfig {
    /// The configuration that selects `transport` and `serialization`.
    pub fn new(transport: TransportProtocol, serialization: SerializationFormat) -> (config: Self)
        ensures
            config.selected_transport == transport,
            config.selected_serialization == serialization,
    {
        CommunicationConfig { selected_transport: transport, selected_serialization: serialization }
    }

    fn transport_line(&self, protocol: TransportProtocol) -> (line: String)
        ensures
            line@ == transport_row(protocol, self.selected_transport == protocol),
    {
        let selected = protocol == self.selected_transport;
        let name = pad_right(marked_name(protocol.name(), selected).as_str(), 21);
        let library = pad_right(protocol.library(), 18);
        let port = pad_right(u64_text(protocol.port() as u64).as_str(), 6);
        let description = pad_right(protocol.description(), 20);
        let mut line = join("│ ", name.as_str());
        line.append(" │ ");
        line.append(library.as_str());
        line.append(" │ ");
        line.append(port.as_str());
        line.append(" │ ");
        line.append(description.as_str());
        line.append(" │");
        line
    }

    fn format_line(&self, format: SerializationFormat) -> (line: String)
        ensures
            line@ == format_row(format, self.selected_serialization == format),
    {
        let selected = format == self.selected_serialization;
        let name = pad_right(marked_name(format.name(), selected).as_str(), 21);
        let library = pad_right(format.library(), 18);
        let characteristics = pad_right(format.characteristics(), 30);
        let mut line = join("│ ", name.as_str());
        line.append(" │ ");
        line.append(library.as_str());
        line.append(" │ ");
        line.append(characteristics.as_str());
        line.append(" │");
        line
    }

    /// The table of the transports on offer, line by line.
    pub fn display_transport_options(&self) -> (lines: Vec<String>)
        ensures
            texts(lines@) == transport_table(self.selected_transport),
    {
        let mut lines = no_lines();
        push_line(&mut lines, TABLE_TOP);
        push_line(&mut lines, "│                        TRANSPORT OPTIONS                                    │");
        push_line(&mut lines, TABLE_RULE);
        push_line(&mut lines, "│ Protocol              │ Library            │ Port   │ Description          │");
        push_line(&mut lines, "├───────────────────────┼────────────────────┼────────┼──────────────────────┤");
        push_owned(&mut lines, self.transport_line(TransportProtocol::WebSocket));
        push_owned(&mut lines, self.transport_line(TransportProtocol::HttpRest));
        push_owned(&mut lines, self.transport_line(TransportProtocol::ServerSentEvents));
        push_owned(&mut lines, self.transport_line(TransportProtocol::Grpc));
        push_line(&mut lines, TABLE_BOTTOM);
        assert(texts(lines@) =~= transport_table(self.selected_transport));
        lines
    }

    /// The table of the formats on offer, line by line.
    pub fn display_serialization_options(&self) -> (lines: Vec<String>)
        ensures
            texts(lines@) == format_table(self.selected_serialization),
    {
        let mut lines = no_lines();
        push_line(&mut lines, TABLE_TOP);
        push_line(&mut lines, "│                      SERIALIZATION OPTIONS                                  │");
        push_line(&mut lines, TABLE_RULE);
        push_line(&mut lines, "│ Format                │ Library            │ Characteristics              │");
        push_line(&mut lines, "├───────────────────────┼────────────────────┼──────────────────────────────┤");
        push_owned(&mut lines, self.format_line(SerializationFormat::Json));
        push_owned(&mut lines, self.format_line(SerializationFormat::MessagePack));
        push_owned(&mut lines, self.format_line(SerializationFormat::Protobuf));
        push_owned(&mut lines, self.format_line(SerializationFormat::Cbor));
        push_line(&mut lines, TABLE_BOTTOM);
        assert(texts(lines@) =~= format_table(self.selected_serialization));
        lines
    }

    /// The summary of what is selected, line by line.
    pub fn display_selected_config(&self) -> (lines: Vec<String>)
        ensures
            texts(lines@) == selection_table(self.selected_transport, self.selected_serialization),
    {
        let role = if self.selected_transport == TransportProtocol::WebSocket {
            "backend-frontend"
        } else {
            "default"
        };
        let mut port = u64_text(self.selected_transport.port() as u64);
        port.append(" (");
        port.append(role);
        port.append(")");
        let mut lines = no_lines();
        push_line(&mut lines, TABLE_TOP);
        push_line(&mut lines, "│                     SELECTED CONFIGURATION                                  │");
        push_line(&mut lines, TABLE_RULE);
        push_owned(&mut lines, summary_line("│ Transport:    ", self.selected_transport.name()));
        push_owned(&mut lines, summary_line("│   Library:    ", self.selected_transport.library()));
        push_owned(&mut lines, summary_line("│   Port:       ", port.as_str()));
        push_owned(&mut lines, summary_line("│   Features:   ", self.selected_transport.description()));
        push_line(&mut lines, TABLE_RULE);
        push_owned(&mut lines, summary_line("│ Serialization:", self.selected_serialization.name()));
        push_owned(&mut lines, summary_line("│   Library:    ", self.selected_serialization.library()));
        push_owned(&mut lines, summary_line("│   Features:   ", self.selected_serialization.description()));
        push_line(&mut lines, TABLE_BOTTOM);
        assert(texts(lines@) =~= selection_table(self.selected_transport, self.selected_serialization));
        lines
    }

    /// Which formats this build has, line by line.
    pub fn display_feature_status() -> (lines: Vec<String>)
        ensures
            texts(lines@) == feature_table(),
    {
        let mut lines = no_lines();
        push_line(&mut lines, BOX_TOP);
        push_line(&mut lines, "║                  SERIALIZATION FEATURE STATUS                               ║");
        push_line(&mut lines, BOX_RULE);
        push_line(&mut lines, "║ ✓ JSON          │ Enabled  │ Default format for web compatibility            ║");
        push_line(&mut lines, "║ ✗ MessagePack   │ Disabled │ Add 'msgpack' feature to enable                 ║");
        push_line(&mut lines, "║ ✗ CBOR          │ Disabled │ Add 'cbor' feature to enable                    ║");
        push_line(&mut lines, "║ ✗ Protobuf      │ Disabled │ Add 'protobuf' feature to enable                ║");
        push_line(&mut lines, BOX_RULE);
        push_line(&mut lines, "║ Build with: cargo build --features 'all-formats'                            ║");
        push_line(&mut lines, "║ Or: cargo build --features 'msgpack cbor'                                   ║");
        push_line(&mut lines, BOX_BOTTOM);
        push_line(&mut lines, "");
        assert(texts(lines@) =~= feature_table());
        lines
    }

    /// Everything that is shown of the configuration, line by line.
    pub fn display(&self) -> (lines: Vec<String>)
        ensures
            texts(lines@) == display_lines(self.selected_transport, self.selected_serialization),
    {
        let mut lines = no_lines();
        push_line(&mut lines, "");
        push_line(&mut lines, BOX_TOP);
        push_line(&mut lines, "║              BACKEND-FRONTEND COMMUNICATION CONFIGURATION                   ║");
        push_line(&mut lines, BOX_BOTTOM);
        push_line(&mut lines, "");
        assert(texts(lines@) =~= title_lines());
        push_all(&mut lines, self.display_transport_options());
        push_line(&mut lines, "");
        push_all(&mut lines, self.display_serialization_options());
        push_line(&mut lines, "");
        push_all(&mut lines, self.display_selected_config());
        push_line(&mut lines, "");
        push_all(&mut lines, crate::serialization::serialization::display_serialization_details());
        push_all(&mut lines, CommunicationConfig::display_feature_status());
        assert(texts(lines@) =~= display_lines(self.selected_transport, self.selected_serialization));
        lines
    }
}

/// The configuration of this application: WebSocket and JSON.
pub fn get_default_config() -> (config: CommunicationConfig)
    ensures
        config.selected_transport == TransportProtocol::WebSocket,
        config.selected_serialization == SerializationFormat::Json,
{
    CommunicationConfig::new(TransportProtocol::WebSocket, SerializationFormat::Json)
}

/// The configuration of this application, and what is shown of it.
pub fn init_communication_config() -> (r: (CommunicationConfig, Vec<String>))
    ensures
        r.0.selected_transport == TransportProtocol::WebSocket,
        r.0.selected_serialization == SerializationFormat::Json,
        texts(r.1@) == display_lines(TransportProtocol::WebSocket, SerializationFormat::Json),
{
    let config = get_default_config();
    let lines = config.display();
    (config, lines)
}

/// What is shown of the configuration of this application.
pub fn display_communication_info() -> (lines: Vec<String>)
    ensures
        texts(lines@) == display_lines(TransportProtocol::WebSocket, SerializationFormat::Json),
{
    get_default_config().display()
}

} // verus!
