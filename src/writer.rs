//! The outbound writer's decisions: the single consumer of a connection's
//! command queue, which turns commands into socket texts. Identify is always
//! the first text; once stopped, the writer sends nothing more.
use vstd::prelude::*;
use crate::api_schema::{command_envelope, encode, envelope_json, WsMessageType};
use crate::json::written_text;

verus! {

/// The client description sent with Identify.
#[derive(Debug)]
pub struct ClientProperties {
    pub os: String,
    pub browser: String,
    pub device: String,
}

impl ClientProperties {
    /// The description this client gives of itself.
    pub fn this_client() -> (r: ClientProperties)
        ensures
            r.os@ == "win"@,
            r.browser@ == "disco"@,
            r.device@ == "disco"@,
    {
        ClientProperties {
            os: "win".to_owned(),
            browser: "disco".to_owned(),
            device: "disco".to_owned(),
        }
    }
}

/// What travels on a connection's command queue.
#[derive(Debug)]
pub enum OutboundCommand {
    /// A command to write to the socket.
    Send(WsMessageType),
    /// Stop writing and close the queue.
    Disconnect,
}

/// How a write to the socket failed.
#[derive(Debug, Clone, Copy, PartialEq, Eq, Structural)]
pub enum WriteFailure {
    /// The peer closed the connection.
    ConnectionClosed,
    /// The connection had already been closed.
    AlreadyClosed,
    /// Any other failure, which may pass.
    Other,
}

#[derive(Debug, Clone, Copy, PartialEq, Eq, Structural)]
pub enum WriterPhase {
    /// Identify has not been sent yet.
    Fresh,
    /// Identify has been sent.
    Running,
    /// The writer has exited.
    Stopped,
}

/// The writer of one connection.
#[derive(Debug)]
pub struct OutboundWriter {
    pub token: String,
    pub properties: ClientProperties,
    pub phase: WriterPhase,
}

/// What the writer is given, in order.
pub enum WriterInput {
    /// The socket is open.
    Start,
    /// An item was taken from the queue.
    Item(OutboundCommand),
    /// The queue was closed by its producers.
    QueueClosed,
    /// Writing a text failed.
    WriteFailed(WriteFailure),
}

/// The socket text of a command.
pub open spec fn frame_text(c: WsMessageType) -> Seq<char> {
    written_text(envelope_json(command_envelope(c)))
}

/// The Identify command of a writer.
pub open spec fn identify_of(w: OutboundWriter) -> WsMessageType {
    WsMessageType::Identify {
        token: w.token,
        os: w.properties.os,
        browser: w.properties.browser,
        device: w.properties.device,
    }
}

pub open spec fn is_terminal(f: WriteFailure) -> bool {
    f == WriteFailure::ConnectionClosed || f == WriteFailure::AlreadyClosed
}

/// The phase after an input.
pub open spec fn next_writer_phase(p: WriterPhase, i: WriterInput) -> WriterPhase {
    if p == WriterPhase::Stopped {
        WriterPhase::Stopped
    } else {
        match i {
            WriterInput::Start => WriterPhase::Running,
            WriterInput::Item(OutboundCommand::Send(_)) => WriterPhase::Running,
            WriterInput::Item(OutboundCommand::Disconnect) => WriterPhase::Stopped,
            WriterInput::QueueClosed => WriterPhase::Stopped,
            WriterInput::WriteFailed(f) => if is_terminal(f) {
                WriterPhase::Stopped
            } else {
                p
            },
        }
    }
}

/// The texts written for an input. A command that comes before the socket
/// was reported open still has Identify written before it.
pub open spec fn texts_for(w: OutboundWriter, p: WriterPhase, i: WriterInput) -> Seq<Seq<char>> {
    let identify = frame_text(identify_of(w));
    match i {
        WriterInput::Start => if p == WriterPhase::Fresh {
            seq![identify]
        } else {
            Seq::empty()
        },
        WriterInput::Item(OutboundCommand::Send(c)) => if p == WriterPhase::Fresh {
            seq![identify, frame_text(c)]
        } else if p == WriterPhase::Running {
            seq![frame_text(c)]
        } else {
            Seq::empty()
        },
        _ => Seq::empty(),
    }
}

/// The texts written for a run of inputs from phase `p`.
pub open spec fn texts_of_run(w: OutboundWriter, p: WriterPhase, ins: Seq<WriterInput>) -> Seq<
    Seq<char>,
>
    decreases ins.len(),
{
    if ins.len() == 0 {
        Seq::empty()
    } else {
        texts_for(w, p, ins[0]) + texts_of_run(w, next_writer_phase(p, ins[0]), ins.drop_first())
    }
}

impl OutboundWriter {
    /// A writer for a socket that is being opened.
    pub fn new(token: String, properties: ClientProperties) -> (r: OutboundWriter)
        ensures
            r.token == token,
            r.properties == properties,
            r.phase == WriterPhase::Fresh,
    {
        OutboundWriter { token, properties, phase: WriterPhase::Fresh }
    }

    fn identify_text(&self) -> (r: String)
        ensures
            r@ == frame_text(identify_of(*self)),
    {
        let cmd = WsMessageType::Identify {
            token: self.token.clone(),
            os: self.properties.os.clone(),
            browser: self.properties.browser.clone(),
            device: self.properties.device.clone(),
        };
        assert(command_envelope(cmd) == command_envelope(identify_of(*self)));
        encode(cmd)
    }

    /// Handles one input; returns the texts to write, in order.
    pub fn step(&mut self, input: WriterInput) -> (r: Vec<String>)
        ensures
            final(self).token == old(self).token,
            final(self).properties == old(self).properties,
            final(self).phase == next_writer_phase(old(self).phase, input),
            r@.map_values(|s: String| s@) == texts_for(*old(self), old(self).phase, input),
    {
        let ghost w = *self;
        let ghost p = self.phase;
        let mut out: Vec<String> = Vec::new();
        if self.phase == WriterPhase::Stopped {
            assert(out@.map_values(|s: String| s@) =~= texts_for(w, p, input));
            return out;
        }
        match input {
            WriterInput::Start => {
                if self.phase == WriterPhase::Fresh {
                    out.push(self.identify_text());
                }
                self.phase = WriterPhase::Running;
            },
            WriterInput::Item(OutboundCommand::Send(c)) => {
                let ghost cg = c;
                if self.phase == WriterPhase::Fresh {
                    out.push(self.identify_text());
                }
                out.push(encode(c));
                self.phase = WriterPhase::Running;
                assert(texts_for(w, p, input) == if p == WriterPhase::Fresh {
                    seq![frame_text(identify_of(w)), frame_text(cg)]
                } else {
                    seq![frame_text(cg)]
                });
            },
            WriterInput::Item(OutboundCommand::Disconnect) => {
                self.phase = WriterPhase::Stopped;
            },
            WriterInput::QueueClosed => {
                self.phase = WriterPhase::Stopped;
            },
            WriterInput::WriteFailed(f) => {
                if f == WriteFailure::ConnectionClosed || f == WriteFailure::AlreadyClosed {
                    self.phase = WriterPhase::Stopped;
                }
            },
        }
        assert(out@.map_values(|s: String| s@) =~= texts_for(w, p, input));
        out
    }
}

/// Whatever the inputs, the first text a fresh writer writes is Identify.
pub proof fn lemma_identify_first(w: OutboundWriter, ins: Seq<WriterInput>)
    ensures
        texts_of_run(w, WriterPhase::Fresh, ins).len() > 0 ==> texts_of_run(
            w,
            WriterPhase::Fresh,
            ins,
        )[0] == frame_text(identify_of(w)),
    decreases ins.len(),
{
    if ins.len() > 0 {
        let first = texts_for(w, WriterPhase::Fresh, ins[0]);
        let next = next_writer_phase(WriterPhase::Fresh, ins[0]);
        if first.len() == 0 {
            if next == WriterPhase::Fresh {
                lemma_identify_first(w, ins.drop_first());
            } else {
                lemma_stopped_writes_nothing(w, ins.drop_first());
            }
        }
    }
}

/// A stopped writer writes nothing, whatever it is given, and stays stopped.
pub proof fn lemma_stopped_writes_nothing(w: OutboundWriter, ins: Seq<WriterInput>)
    ensures
        texts_of_run(w, WriterPhase::Stopped, ins) == Seq::<Seq<char>>::empty(),
    decreases ins.len(),
{
    if ins.len() > 0 {
        lemma_stopped_writes_nothing(w, ins.drop_first());
        assert(texts_of_run(w, WriterPhase::Stopped, ins) =~= Seq::<Seq<char>>::empty());
    }
}

/// Closing the queue stops the writer at once, from any phase, and nothing
/// is written after it.
pub proof fn lemma_queue_close_stops(w: OutboundWriter, p: WriterPhase, ins: Seq<WriterInput>)
    ensures
        next_writer_phase(p, WriterInput::QueueClosed) == WriterPhase::Stopped,
        texts_for(w, p, WriterInput::QueueClosed) == Seq::<Seq<char>>::empty(),
        texts_of_run(w, p, seq![WriterInput::QueueClosed] + ins) == Seq::<Seq<char>>::empty(),
{
    let all = seq![WriterInput::QueueClosed] + ins;
    assert(all[0] == WriterInput::QueueClosed);
    assert(all.drop_first() =~= ins);
    lemma_stopped_writes_nothing(w, ins);
    assert(texts_of_run(w, p, all) =~= Seq::<Seq<char>>::empty());
}

} // verus!
