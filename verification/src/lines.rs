//! Groups of lines that were requested together, and their values and events.
//!
//! The kernel addresses the value of a line by the position that the line had
//! in the request: position `i` of every value read or written stands for the
//! line whose offset was given at position `i`.

use std::collections::HashMap;
use vstd::prelude::*;
use vstd::slice::slice_to_vec;
use vstd::std_specs::convert::{FromSpec, IntoSpec};
use vstd::std_specs::hash::*;
use crate::error::Error;
use crate::raw::{v1, v2, LineEventData, LineValuesData};
use crate::types::{
    lemma_set_keeps_others, lemma_set_then_get, Abi, BitId, Edge, Event, LineId, Values,
};
use crate::utils::invalid_data;

verus! {

/// Most lines that one request can hold, in either generation.
pub const LINES_MAX: usize = 64;

/// The position of `line` among the requested `offsets`: the last one, where
/// an offset was given more than once; `None` where it was not given.
pub open spec fn line_position(offsets: Seq<LineId>, line: LineId) -> Option<BitId>
    decreases offsets.len(),
{
    if offsets.len() == 0 {
        None
    } else if offsets.last() == line {
        Some((offsets.len() - 1) as BitId)
    } else {
        line_position(offsets.drop_last(), line)
    }
}

/// The values that the kernel's bytes stand for, one byte for each of the
/// first `count` positions: a position is masked where it has a byte, and set
/// where the byte is not zero.
pub open spec fn unpack(bytes: Seq<u8>, count: nat) -> Values
    recommends
        count <= bytes.len(),
        count <= LINES_MAX,
    decreases count,
{
    if count == 0 {
        Values { bits: 0, mask: 0 }
    } else {
        unpack(bytes, (count - 1) as nat).spec_set((count - 1) as BitId, bytes[count - 1] != 0)
    }
}

/// The bytes that the kernel takes for `values`, one byte for each position:
/// one where the position is among the first `count`, masked and set; zero
/// everywhere else.
pub open spec fn pack(values: Values, count: nat) -> Seq<u8> {
    Seq::new(
        LINES_MAX as nat,
        |i: int|
            if i < count && values.spec_get(i as BitId) == Some(true) {
                1u8
            } else {
                0u8
            },
    )
}

/// The values that a record of the kernel holds for a group of `count`
/// lines. A first-generation record is unpacked byte by byte; a
/// second-generation record holds the values as they are.
pub open spec fn values_of(data: LineValuesData, count: nat) -> Values {
    match data {
        LineValuesData::V1(data) => unpack(data.values@, count),
        LineValuesData::V2(data) => Values { bits: data.bits, mask: data.mask },
    }
}

/// Whether `data` is the record of generation `abi` that holds `values` for a
/// group of `count` lines.
pub open spec fn holds_values(data: LineValuesData, abi: Abi, values: Values, count: nat) -> bool {
    match data {
        LineValuesData::V1(data) => abi == Abi::V1 && data.values@ =~= pack(values, count),
        LineValuesData::V2(data) => abi == Abi::V2 && data.bits == values.bits && data.mask
            == values.mask,
    }
}

/// Whether `record` is what an event of a group of lines of generation `abi`
/// is read into: the empty record of the second generation, and none in the
/// first, whose line handles deliver no events.
pub open spec fn is_event_record(record: Option<LineEventData>, abi: Abi) -> bool {
    match record {
        None => abi == Abi::V1,
        Some(LineEventData::V2(event)) => abi == Abi::V2 && event.is_zeroed(),
        Some(LineEventData::V1 { line, event }) => false,
    }
}

/// The edge that an event code of the first generation stands for.
pub open spec fn v1_edge(id: u32) -> Option<Edge> {
    if id == v1::GPIOEVENT_EVENT_RISING_EDGE {
        Some(Edge::Rising)
    } else if id == v1::GPIOEVENT_EVENT_FALLING_EDGE {
        Some(Edge::Falling)
    } else {
        None
    }
}

/// The edge that an event code of the second generation stands for.
pub open spec fn v2_edge(id: u32) -> Option<Edge> {
    if id == v2::GPIO_LINE_EVENT_RISING_EDGE {
        Some(Edge::Rising)
    } else if id == v2::GPIO_LINE_EVENT_FALLING_EDGE {
        Some(Edge::Falling)
    } else {
        None
    }
}

/// The offset of the line that an event record speaks of.
pub open spec fn event_line(data: LineEventData) -> LineId {
    match data {
        LineEventData::V1 { line, event } => line,
        LineEventData::V2(event) => event.offset,
    }
}

/// The edge that an event record reports, if its code is known.
pub open spec fn event_edge(data: LineEventData) -> Option<Edge> {
    match data {
        LineEventData::V1 { line, event } => v1_edge(event.id),
        LineEventData::V2(event) => v2_edge(event.id),
    }
}

/// The time that an event record reports.
pub open spec fn event_time(data: LineEventData) -> u64 {
    match data {
        LineEventData::V1 { line, event } => event.timestamp,
        LineEventData::V2(event) => event.timestamp_ns,
    }
}

/// The event that a record stands for, for a group of lines requested at
/// `offsets`. A record with an unknown event code, or for a line that is not
/// in the group, is refused.
pub open spec fn event_of(data: LineEventData, offsets: Seq<LineId>) -> Result<Event, Error> {
    match (line_position(offsets, event_line(data)), event_edge(data)) {
        (Some(line), Some(edge)) => Ok(Event { line, edge, time: event_time(data) }),
        _ => Err(Error::InvalidData),
    }
}

/// The position that a line has in a request is a place where its offset was
/// given, and the last such place; a line has no position exactly where its
/// offset was not given.
pub proof fn lemma_line_position(offsets: Seq<LineId>, line: LineId)
    requires
        offsets.len() <= LINES_MAX,
    ensures
        match line_position(offsets, line) {
            Some(bit) => bit < offsets.len() && offsets[bit as int] == line && forall|j: int|
                bit < j < offsets.len() ==> offsets[j] != line,
            None => forall|j: int| 0 <= j < offsets.len() ==> offsets[j] != line,
        },
    decreases offsets.len(),
{
    if offsets.len() > 0 && offsets.last() != line {
        let rest = offsets.drop_last();
        lemma_line_position(rest, line);
        match line_position(rest, line) {
            Some(bit) => {
                assert forall|j: int| bit < j < offsets.len() implies offsets[j] != line by {
                    if j < rest.len() {
                        assert(rest[j] == offsets[j]);
                    }
                }
            },
            None => {
                assert forall|j: int| 0 <= j < offsets.len() implies offsets[j] != line by {
                    if j < rest.len() {
                        assert(rest[j] == offsets[j]);
                    }
                }
            },
        }
    }
}

/// In the values unpacked from the kernel's bytes, each of the first `count`
/// positions reads as its byte says, and no later position is masked.
pub proof fn lemma_unpack_get(bytes: Seq<u8>, count: nat, bit: BitId)
    requires
        count <= LINES_MAX,
    ensures
        unpack(bytes, count).spec_get(bit) == if bit < count {
            Some(bytes[bit as int] != 0)
        } else {
            None::<bool>
        },
    decreases count,
{
    if count == 0 {
        assert(0u64 & (1u64 << bit) == 0) by (bit_vector);
    } else {
        let last = (count - 1) as BitId;
        let before = unpack(bytes, (count - 1) as nat);
        lemma_unpack_get(bytes, (count - 1) as nat, bit);
        if bit == last {
            lemma_set_then_get(before, last, bytes[count - 1] != 0);
        } else {
            lemma_set_keeps_others(before, last, bytes[count - 1] != 0, bit);
        }
    }
}

/// The bytes packed for `values` hold, at each of the first `count`
/// positions, whether the position is masked and set.
pub proof fn lemma_pack_index(values: Values, count: nat, bit: BitId)
    requires
        count <= LINES_MAX,
        bit < count,
    ensures
        pack(values, count)[bit as int] != 0 <==> values.spec_get(bit) == Some(true),
{
}

/// Values that are packed into bytes and unpacked again read, at each of the
/// first `count` positions, as set where they were masked and set, and as
/// clear otherwise.
pub proof fn lemma_pack_unpack(values: Values, count: nat, bit: BitId)
    requires
        count <= LINES_MAX,
        bit < count,
    ensures
        unpack(pack(values, count), count).spec_get(bit) == Some(
            values.spec_get(bit) == Some(true),
        ),
{
    lemma_unpack_get(pack(values, count), count, bit);
    lemma_pack_index(values, count, bit);
}

/// A group of requested lines, as a plain value.
pub struct LinesView {
    /// Generation of the protocol that the lines were requested in
    pub abi: Abi,
    /// Name of the chip that the lines belong to
    pub chip_name: Seq<char>,
    /// Offsets of the lines, in the order of the request
    pub lines: Seq<LineId>,
}

/// What `index` holds for `line`.
spec fn index_get(index: Map<LineId, BitId>, line: LineId) -> Option<BitId> {
    if index.contains_key(line) {
        Some(index[line])
    } else {
        None
    }
}

struct LineValues {
    abi: Abi,
    chip_name: String,
    offset: Vec<LineId>,
    index: HashMap<LineId, BitId>,
}

impl LineValues {
    /// The group holds no more lines than a request can, and the index gives
    /// each line its position.
    #[verifier::type_invariant]
    spec fn inv(&self) -> bool {
        &&& self.offset@.len() <= LINES_MAX
        &&& forall|line: LineId| #[trigger]
            index_get(self.index@, line) == line_position(self.offset@, line)
    }

    spec fn view(&self) -> LinesView {
        LinesView { abi: self.abi, chip_name: self.chip_name@, lines: self.offset@ }
    }

    fn new(abi: Abi, chip_name: &str, offset: &[LineId]) -> (res: Self)
        requires
            offset@.len() <= LINES_MAX,
        ensures
            res.view() == (LinesView { abi, chip_name: chip_name@, lines: offset@ }),
    {
        broadcast use group_hash_axioms;

        let mut index: HashMap<LineId, BitId> = HashMap::new();
        let mut i: usize = 0;
        while i < offset.len()
            invariant
                i <= offset@.len() <= LINES_MAX,
                forall|line: LineId| #[trigger]
                    index_get(index@, line) == line_position(offset@.take(i as int), line),
            decreases offset@.len() - i,
        {
            let ghost before = index@;
            index.insert(offset[i], i as BitId);
            proof {
                let next = offset@.take(i + 1);
                assert(next.drop_last() =~= offset@.take(i as int));
                assert forall|line: LineId| #[trigger]
                    index_get(index@, line) == line_position(next, line) by {
                    if line != offset@[i as int] {
                        assert(index_get(before, line) == line_position(
                            offset@.take(i as int),
                            line,
                        ));
                    }
                }
            }
            i += 1;
        }
        proof {
            assert(offset@.take(i as int) =~= offset@);
        }
        let chip_name = chip_name.to_owned();
        let offset = slice_to_vec(offset);
        Self { abi, chip_name, offset, index }
    }

    fn chip_name(&self) -> (res: &str)
        ensures
            res@ == self.view().chip_name,
    {
        self.chip_name.as_str()
    }

    fn lines(&self) -> (res: &[LineId])
        ensures
            res@ == self.view().lines,
    {
        self.offset.as_slice()
    }

    fn values_query(&self) -> (res: LineValuesData)
        ensures
            holds_values(res, self.view().abi, Values { bits: 0, mask: 0 }, 0),
    {
        match self.abi {
            Abi::V1 => LineValuesData::V1(v1::GpioHandleData::default()),
            Abi::V2 => LineValuesData::V2(v2::GpioLineValues::default()),
        }
    }

    fn event_record(&self) -> (res: Option<LineEventData>)
        ensures
            is_event_record(res, self.view().abi),
    {
        match self.abi {
            Abi::V1 => None,
            Abi::V2 => Some(LineEventData::V2(v2::GpioLineEvent::default())),
        }
    }

    fn read_values(&self, data: &LineValuesData) -> (res: Values)
        ensures
            res == values_of(*data, self.view().lines.len()),
    {
        proof {
            use_type_invariant(self);
        }
        match data {
            LineValuesData::V1(data) => {
                let mut output_data = Values::default();
                let count = self.offset.len();
                let mut index: usize = 0;
                while index < count
                    invariant
                        index <= count <= LINES_MAX,
                        output_data == unpack(data.values@, index as nat),
                    decreases count - index,
                {
                    output_data.set(index as BitId, data.values[index] != 0);
                    index += 1;
                }
                output_data
            },
            LineValuesData::V2(data) => Values { bits: data.bits, mask: data.mask },
        }
    }

    fn write_values(&self, values: Values) -> (res: LineValuesData)
        ensures
            holds_values(res, self.view().abi, values, self.view().lines.len()),
    {
        proof {
            use_type_invariant(self);
        }
        match self.abi {
            Abi::V1 => {
                let mut data = v1::GpioHandleData::default();
                let count = self.offset.len();
                let mut index: usize = 0;
                while index < count
                    invariant
                        index <= count <= LINES_MAX,
                        data.values@.len() == LINES_MAX,
                        forall|i: int|
                            0 <= i < LINES_MAX ==> data.values@[i] == if i < index {
                                pack(values, count as nat)[i]
                            } else {
                                0u8
                            },
                    decreases count - index,
                {
                    data.values[index] = match values.get(index as BitId) {
                        Some(true) => 1,
                        _ => 0,
                    };
                    index += 1;
                }
                LineValuesData::V1(data)
            },
            Abi::V2 => LineValuesData::V2(
                v2::GpioLineValues { bits: values.bits, mask: values.mask },
            ),
        }
    }

    fn line_bit(&self, line: LineId) -> (res: Option<BitId>)
        ensures
            res == line_position(self.view().lines, line),
    {
        broadcast use group_hash_axioms;

        proof {
            use_type_invariant(self);
            assert(index_get(self.index@, line) == line_position(self.offset@, line));
        }
        match self.index.get(&line) {
            Some(bit) => Some(*bit),
            None => None,
        }
    }

    fn make_event(&self, data: &LineEventData) -> (res: Result<Event, Error>)
        ensures
            res == event_of(*data, self.view().lines),
    {
        match data {
            LineEventData::V1 { line, event } => {
                let line = match self.line_bit(*line) {
                    Some(line) => line,
                    None => {
                        return Err(invalid_data());
                    },
                };

                let edge = match event.id {
                    v1::GPIOEVENT_EVENT_RISING_EDGE => Edge::Rising,
                    v1::GPIOEVENT_EVENT_FALLING_EDGE => Edge::Falling,
                    _ => {
                        return Err(invalid_data());
                    },
                };

                Ok(Event { line, edge, time: event.timestamp })
            },
            LineEventData::V2(event) => {
                let line = match self.line_bit(event.offset) {
                    Some(line) => line,
                    None => {
                        return Err(invalid_data());
                    },
                };

                let edge = match event.id {
                    v2::GPIO_LINE_EVENT_RISING_EDGE => Edge::Rising,
                    v2::GPIO_LINE_EVENT_FALLING_EDGE => Edge::Falling,
                    _ => {
                        return Err(invalid_data());
                    },
                };

                Ok(Event { line, edge, time: event.timestamp_ns })
            },
        }
    }
}

/// Represents the input values.
pub struct Inputs(LineValues);

impl View for Inputs {
    type V = LinesView;

    closed spec fn view(&self) -> LinesView {
        self.0.view()
    }
}

impl Inputs {
    /// The group of input lines at `offsets` on the chip `chip_name`.
    pub(crate) fn new(abi: Abi, chip_name: &str, offsets: &[LineId]) -> (res: Self)
        requires
            offsets@.len() <= LINES_MAX,
        ensures
            res@ == (LinesView { abi, chip_name: chip_name@, lines: offsets@ }),
    {
        Inputs(LineValues::new(abi, chip_name, offsets))
    }

    /// Get line chip name
    pub fn chip_name(&self) -> (res: &str)
        ensures
            res@ == self@.chip_name,
    {
        self.0.chip_name()
    }

    /// Get line offsets
    pub fn lines(&self) -> (res: &[LineId])
        ensures
            res@ == self@.lines,
            res@.len() <= LINES_MAX,
    {
        proof {
            use_type_invariant(&self.0);
        }
        self.0.lines()
    }

    /// The record to hand to the kernel when asking for the values of the
    /// lines: the empty record of the generation that the lines were
    /// requested in.
    pub fn values_query(&self) -> (res: LineValuesData)
        ensures
            holds_values(res, self@.abi, Values { bits: 0, mask: 0 }, 0),
    {
        self.0.values_query()
    }

    /// The values that the kernel's record holds for the lines: position `i`
    /// is the value of the line at `self.lines()[i]`.
    pub fn read_values(&self, data: &LineValuesData) -> (res: Values)
        ensures
            res == values_of(*data, self@.lines.len()),
    {
        self.0.read_values(data)
    }

    /// Get the value of GPIO lines from the record that the kernel filled in.
    /// The values can only be read if the lines have previously been
    /// requested as either inputs, using the *request_input* method, or
    /// outputs using the *request_output*. Position `i` of the values read is
    /// the value of the line at `self.lines()[i]`.
    ///
    /// The values are handed over in the type that the caller asks for; what
    /// that conversion makes of them is up to the type.
    pub fn get_values<T: From<Values>>(&self, data: &LineValuesData) -> (res: T)
        ensures
            T::obeys_from_spec() ==> res == T::from_spec(values_of(*data, self@.lines.len())),
    {
        T::from(self.0.read_values(data))
    }

    /// The record to read an event of the lines into: the empty record of the
    /// second generation. The line handles of the first generation deliver no
    /// events, so there is none for them.
    pub fn event_record(&self) -> (res: Option<LineEventData>)
        ensures
            is_event_record(res, self@.abi),
    {
        self.0.event_record()
    }

    /// Read an event from the record that the kernel handed out.
    ///
    /// The event names its line by the position that the line has among
    /// `self.lines()`. A record with an unknown event code, or for a line that
    /// is not among them, is refused.
    pub fn read_event(&self, data: &LineEventData) -> (res: Result<Event, Error>)
        ensures
            res == event_of(*data, self@.lines),
    {
        self.0.make_event(data)
    }
}

/// Represents the output values.
pub struct Outputs(LineValues);

impl View for Outputs {
    type V = LinesView;

    closed spec fn view(&self) -> LinesView {
        self.0.view()
    }
}

impl Outputs {
    /// The group of output lines at `offsets` on the chip `chip_name`.
    pub(crate) fn new(abi: Abi, chip_name: &str, offsets: &[LineId]) -> (res: Self)
        requires
            offsets@.len() <= LINES_MAX,
        ensures
            res@ == (LinesView { abi, chip_name: chip_name@, lines: offsets@ }),
    {
        Outputs(LineValues::new(abi, chip_name, offsets))
    }

    /// Get line chip name
    pub fn chip_name(&self) -> (res: &str)
        ensures
            res@ == self@.chip_name,
    {
        self.0.chip_name()
    }

    /// Get line offsets
    pub fn lines(&self) -> (res: &[LineId])
        ensures
            res@ == self@.lines,
            res@.len() <= LINES_MAX,
    {
        proof {
            use_type_invariant(&self.0);
        }
        self.0.lines()
    }

    /// The record to hand to the kernel when asking for the values of the
    /// lines: the empty record of the generation that the lines were
    /// requested in.
    pub fn values_query(&self) -> (res: LineValuesData)
        ensures
            holds_values(res, self@.abi, Values { bits: 0, mask: 0 }, 0),
    {
        self.0.values_query()
    }

    /// The values that the kernel's record holds for the lines: position `i`
    /// is the value of the line at `self.lines()[i]`.
    pub fn read_values(&self, data: &LineValuesData) -> (res: Values)
        ensures
            res == values_of(*data, self@.lines.len()),
    {
        self.0.read_values(data)
    }

    /// Get the value of GPIO lines from the record that the kernel filled in.
    /// The values can only be read if the lines have previously been
    /// requested as either inputs, using the *request_input* method, or
    /// outputs using the *request_output*. Position `i` of the values read is
    /// the value of the line at `self.lines()[i]`.
    ///
    /// The values are handed over in the type that the caller asks for; what
    /// that conversion makes of them is up to the type.
    pub fn get_values<T: From<Values>>(&self, data: &LineValuesData) -> (res: T)
        ensures
            T::obeys_from_spec() ==> res == T::from_spec(values_of(*data, self@.lines.len())),
    {
        T::from(self.0.read_values(data))
    }

    /// The record that sets the lines to `values`, in the generation that the
    /// lines were requested in: position `i` of the values is for the line at
    /// `self.lines()[i]`.
    pub fn write_values(&self, values: Values) -> (res: LineValuesData)
        ensures
            holds_values(res, self@.abi, values, self@.lines.len()),
    {
        self.0.write_values(values)
    }

    /// Set the value of GPIO lines: builds the record to hand to the kernel.
    /// The value can only be set if the lines have previously been requested
    /// as outputs using the *request_output*. Position `i` of the values is
    /// for the line at `self.lines()[i]`.
    ///
    /// The values are taken in whatever type the caller has them; what that
    /// conversion makes of them is up to the type.
    pub fn set_values<T: Into<Values>>(&self, values: T) -> (res: LineValuesData)
        ensures
            T::obeys_into_spec() ==> holds_values(
                res,
                self@.abi,
                values.into_spec(),
                self@.lines.len(),
            ),
    {
        self.0.write_values(values.into())
    }

    /// The record to read an event of the lines into: the empty record of the
    /// second generation. The line handles of the first generation deliver no
    /// events, so there is none for them.
    pub fn event_record(&self) -> (res: Option<LineEventData>)
        ensures
            is_event_record(res, self@.abi),
    {
        self.0.event_record()
    }

    /// Read an event from the record that the kernel handed out.
    ///
    /// The event names its line by the position that the line has among
    /// `self.lines()`. A record with an unknown event code, or for a line that
    /// is not among them, is refused.
    pub fn read_event(&self, data: &LineEventData) -> (res: Result<Event, Error>)
        ensures
            res == event_of(*data, self@.lines),
    {
        self.0.make_event(data)
    }
}

} // verus!
