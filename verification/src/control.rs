//! The poll/dispatch loop's state machine and the operator-command surface.
//!
//! The loop has two states: while `Running` it drives the engine's poll step
//! and drains at most one console line per iteration; the quit command moves
//! it to `Terminating`, after which no further poll cycle occurs. The two
//! working commands produce the request sequences the engine is asked to
//! send: a discovery round and a bounded read-property round tagged with a
//! fresh invoke id.

use vstd::prelude::*;

use crate::invoke::InvokeIdRegistry;
use crate::invoke::advanced;

verus! {

/// Carriage return, the first byte of the line terminator on the console.
pub const CARRIAGE_RETURN: u8 = 13;

/// Line feed, the second byte of the line terminator on the console.
pub const LINE_FEED: u8 = 10;

/// What one console line asks for.
#[derive(Clone, Copy, PartialEq, Eq, Structural, Debug)]
pub enum Command {
    /// Leave the loop.
    Quit,
    /// Issue the discovery-request round.
    WhoIs,
    /// Issue the read-property round.
    ReadPropertyMultiple,
    /// Anything else: echo a usage reminder and carry on.
    Usage,
}

/// The loop's two states; `Terminating` ends the process.
#[derive(Clone, Copy, PartialEq, Eq, Structural, Debug)]
pub enum LoopState {
    Running,
    Terminating,
}

/// Whether `line` is the single-letter command `letter` (in either case),
/// terminated by carriage return and line feed.
pub open spec fn line_matches(line: Seq<u8>, lower: u8, upper: u8) -> bool {
    line == seq![lower, CARRIAGE_RETURN, LINE_FEED] || line == seq![
        upper,
        CARRIAGE_RETURN,
        LINE_FEED,
    ]
}

/// The command a console line dispatches to; commands are single letters,
/// case-insensitive, CRLF-terminated.
pub open spec fn command_of(line: Seq<u8>) -> Command {
    if line_matches(line, 113, 81) {  // 'q' / 'Q'
        Command::Quit
    } else if line_matches(line, 119, 87) {  // 'w' / 'W'
        Command::WhoIs
    } else if line_matches(line, 114, 82) {  // 'r' / 'R'
        Command::ReadPropertyMultiple
    } else {
        Command::Usage
    }
}

/// Whether `line` equals the three bytes `letter`, CR, LF.
fn line_is(line: &Vec<u8>, letter: u8) -> (r: bool)
    ensures
        r == (line@ == seq![letter, CARRIAGE_RETURN, LINE_FEED]),
{
    let r = line.len() == 3 && line[0] == letter && line[1] == CARRIAGE_RETURN && line[2]
        == LINE_FEED;
    proof {
        if r {
            assert(line@ =~= seq![letter, CARRIAGE_RETURN, LINE_FEED]);
        }
    }
    r
}

/// Classifies one console line as the command it dispatches to.
pub fn dispatch_command(line: &Vec<u8>) -> (r: Command)
    ensures
        r == command_of(line@),
{
    if line_is(line, 113) || line_is(line, 81) {
        Command::Quit
    } else if line_is(line, 119) || line_is(line, 87) {
        Command::WhoIs
    } else if line_is(line, 114) || line_is(line, 82) {
        Command::ReadPropertyMultiple
    } else {
        Command::Usage
    }
}

/// Whether one console line ends the loop: exactly the quit command does.
pub fn check_end_loop(key: &Vec<u8>) -> (r: bool)
    ensures
        r == (command_of(key@) is Quit),
{
    match dispatch_command(key) {
        Command::Quit => true,
        _ => false,
    }
}

/// Whether the loop still drives the engine's poll step: only while
/// `Running`.
pub open spec fn polls_engine(state: LoopState) -> bool {
    state is Running
}

/// The state after one iteration's dispatch check: `Terminating` is final;
/// from `Running`, the quit command and nothing else leaves the loop. A
/// cycle without input simply repeats.
pub open spec fn spec_loop_step(state: LoopState, line: Option<Seq<u8>>) -> LoopState {
    match state {
        LoopState::Terminating => LoopState::Terminating,
        LoopState::Running => match line {
            Some(l) => if command_of(l) is Quit {
                LoopState::Terminating
            } else {
                LoopState::Running
            },
            None => LoopState::Running,
        },
    }
}

/// One dispatch check of the loop: takes the line drained this iteration (if
/// any) and returns the next state together with the command to act on. No
/// command is acted on once the loop is leaving, and none without input.
pub fn loop_step(state: LoopState, line: Option<&Vec<u8>>) -> (r: (LoopState, Option<Command>))
    ensures
        (match line {
            Some(l) => {
                &&& r.0 == spec_loop_step(state, Some(l@))
                &&& (state is Running ==> r.1 == Some(command_of(l@)))
            },
            None => r.0 == spec_loop_step(state, None::<Seq<u8>>),
        }),
        state is Terminating ==> r.1 is None,
        line is None ==> r.1 is None,
{
    match state {
        LoopState::Terminating => (LoopState::Terminating, None),
        LoopState::Running => match line {
            Some(l) => {
                let command = dispatch_command(l);
                match command {
                    Command::Quit => (LoopState::Terminating, Some(command)),
                    _ => (LoopState::Running, Some(command)),
                }
            },
            None => (LoopState::Running, None),
        },
    }
}

/// Quit ends the loop: the quit line moves a running loop to `Terminating`
/// on its next dispatch check, and from `Terminating` — which never polls
/// the engine — no line of any content resumes it.
pub proof fn lemma_quit_terminates(line: Seq<u8>)
    ensures
        spec_loop_step(
            LoopState::Running,
            Some(seq![113u8, CARRIAGE_RETURN, LINE_FEED]),
        ) is Terminating,
        spec_loop_step(
            LoopState::Running,
            Some(seq![81u8, CARRIAGE_RETURN, LINE_FEED]),
        ) is Terminating,
        !polls_engine(LoopState::Terminating),
        spec_loop_step(LoopState::Terminating, Some(line)) is Terminating,
        spec_loop_step(LoopState::Terminating, None::<Seq<u8>>) is Terminating,
{
}

/// One discovery request of the round the who-is command issues.
#[derive(Clone, Copy, PartialEq, Eq, Structural, Debug)]
pub struct WhoIsRequest {
    /// Whether the request carries a device-instance range.
    pub has_limits: bool,
    /// Low end of the range; meaningful only with `has_limits`.
    pub low_limit: u32,
    /// High end of the range; meaningful only with `has_limits`.
    pub high_limit: u32,
    /// The destination network the request is addressed to; 65535 names
    /// every network.
    pub destination_network: u16,
}

/// The discovery round: an unbounded request, a ranged one, one to a
/// specific network, and one to the all-networks broadcast.
pub open spec fn who_is_requests() -> Seq<WhoIsRequest> {
    seq![
        WhoIsRequest { has_limits: false, low_limit: 0, high_limit: 0, destination_network: 0 },
        WhoIsRequest {
            has_limits: true,
            low_limit: 389000,
            high_limit: 389999,
            destination_network: 0,
        },
        WhoIsRequest { has_limits: false, low_limit: 0, high_limit: 0, destination_network: 15 },
        WhoIsRequest {
            has_limits: false,
            low_limit: 0,
            high_limit: 0,
            destination_network: 65535,
        },
    ]
}

/// Produces the discovery round in order, for the caller to hand to the
/// engine one by one.
pub fn who_is() -> (r: Vec<WhoIsRequest>)
    ensures
        r@ == who_is_requests(),
{
    let mut r: Vec<WhoIsRequest> = Vec::new();
    r.push(
        WhoIsRequest { has_limits: false, low_limit: 0, high_limit: 0, destination_network: 0 },
    );
    r.push(
        WhoIsRequest {
            has_limits: true,
            low_limit: 389000,
            high_limit: 389999,
            destination_network: 0,
        },
    );
    r.push(
        WhoIsRequest { has_limits: false, low_limit: 0, high_limit: 0, destination_network: 15 },
    );
    r.push(
        WhoIsRequest {
            has_limits: false,
            low_limit: 0,
            high_limit: 0,
            destination_network: 65535,
        },
    );
    proof {
        assert(r@ =~= who_is_requests());
    }
    r
}

/// The object kinds the read-property round queries.
#[derive(Clone, Copy, PartialEq, Eq, Structural, Debug)]
pub enum ObjectType {
    AnalogInput,
    Device,
    CharacterstringValue,
}

/// The properties the read-property round asks for.
#[derive(Clone, Copy, PartialEq, Eq, Structural, Debug)]
pub enum PropertyIdentifier {
    ObjectName,
    PresentValue,
}

/// One property to add to the pending read-property request.
#[derive(Clone, Copy, PartialEq, Eq, Structural, Debug)]
pub struct ReadPropertyBuild {
    pub object_type: ObjectType,
    pub instance: u32,
    pub property: PropertyIdentifier,
}

/// The read-property round: the object names of three objects, then the
/// present values of the two that have one.
pub open spec fn read_property_builds() -> Seq<ReadPropertyBuild> {
    seq![
        ReadPropertyBuild {
            object_type: ObjectType::AnalogInput,
            instance: 0,
            property: PropertyIdentifier::ObjectName,
        },
        ReadPropertyBuild {
            object_type: ObjectType::Device,
            instance: 389001,
            property: PropertyIdentifier::ObjectName,
        },
        ReadPropertyBuild {
            object_type: ObjectType::CharacterstringValue,
            instance: 40,
            property: PropertyIdentifier::ObjectName,
        },
        ReadPropertyBuild {
            object_type: ObjectType::AnalogInput,
            instance: 0,
            property: PropertyIdentifier::PresentValue,
        },
        ReadPropertyBuild {
            object_type: ObjectType::CharacterstringValue,
            instance: 40,
            property: PropertyIdentifier::PresentValue,
        },
    ]
}

/// The read-property round together with the invoke id that tags it.
pub struct ReadPropertyRequest {
    pub invoke_id: u8,
    pub builds: Vec<ReadPropertyBuild>,
}

/// Assembles the read-property round and tags it with a freshly acquired
/// invoke id, advancing the shared counter.
pub fn read_property_multiple(registry: &mut InvokeIdRegistry) -> (r: ReadPropertyRequest)
    ensures
        r.builds@ == read_property_builds(),
        r.invoke_id == old(registry)@,
        final(registry)@ == advanced(old(registry)@),
{
    let mut builds: Vec<ReadPropertyBuild> = Vec::new();
    builds.push(
        ReadPropertyBuild {
            object_type: ObjectType::AnalogInput,
            instance: 0,
            property: PropertyIdentifier::ObjectName,
        },
    );
    builds.push(
        ReadPropertyBuild {
            object_type: ObjectType::Device,
            instance: 389001,
            property: PropertyIdentifier::ObjectName,
        },
    );
    builds.push(
        ReadPropertyBuild {
            object_type: ObjectType::CharacterstringValue,
            instance: 40,
            property: PropertyIdentifier::ObjectName,
        },
    );
    builds.push(
        ReadPropertyBuild {
            object_type: ObjectType::AnalogInput,
            instance: 0,
            property: PropertyIdentifier::PresentValue,
        },
    );
    builds.push(
        ReadPropertyBuild {
            object_type: ObjectType::CharacterstringValue,
            instance: 40,
            property: PropertyIdentifier::PresentValue,
        },
    );
    proof {
        assert(builds@ =~= read_property_builds());
    }
    let invoke_id = registry.acquire();
    ReadPropertyRequest { invoke_id, builds }
}

} // verus!
