//! Parameters of an environment: their names, the kinds of value they take,
//! and the native calls that read and write them.

use crate::constants::{ERROR_INVALID_ARGUMENT, GRB_MAX_STRLEN};
use crate::cstr::{c_str_bytes, lemma_c_string_is_whole, lemma_unterminated_is_whole};
use crate::cstr::{has_nul, to_c_string, with_nul, NUL};
use crate::double::{Double, NAN_BITS};
use crate::native::{Category, NativeFn, ReadCall, WriteCall};
use crate::text::{copy_c_str, lemma_encode_utf8_nul, lemma_text_round_trip};
use crate::text::{text_before_nul, text_of};
use vstd::prelude::*;
use vstd::string::StringSliceAdditionalSpecFns;
use vstd::utf8::encode_utf8;

verus! {

/// The name of a parameter, as the engine knows it. A name holds no NUL
/// character, so it always has a C string.
#[derive(Clone, Copy, Debug, PartialEq, Eq, Hash)]
pub struct ParamName {
    text: &'static str,
}

impl View for ParamName {
    type V = Seq<char>;

    /// The characters of the name.
    closed spec fn view(&self) -> Seq<char> {
        self.text@
    }
}

impl ParamName {
    #[verifier::type_invariant]
    spec fn no_nul(self) -> bool {
        !self.text@.contains('\0')
    }

    /// Takes `text` as a name; `None` where it holds a NUL character.
    pub fn new(text: &'static str) -> (r: Option<ParamName>)
        ensures
            r is Some <==> !text@.contains('\0'),
            r matches Some(name) ==> name@ == text@,
    {
        proof {
            lemma_encode_utf8_nul(text@);
        }
        if has_nul(text.as_bytes()) {
            None
        } else {
            Some(ParamName { text })
        }
    }

    /// The name as text.
    pub fn as_str(self) -> (text: &'static str)
        ensures
            text@ == self@,
    {
        self.text
    }

    /// The name as the C string that the engine is handed. The engine
    /// reads it back whole: the terminator is its only zero byte.
    pub fn to_c_string(self) -> (c: Vec<u8>)
        ensures
            c@ == with_nul(encode_utf8(self@)),
            c_str_bytes(c@) == encode_utf8(self@),
    {
        proof {
            use_type_invariant(self);
            lemma_encode_utf8_nul(self.text@);
            lemma_c_string_is_whole(encode_utf8(self.text@));
        }
        match to_c_string(self.text.as_bytes()) {
            Some(c) => c,
            None => unreached(),
        }
    }
}

/// The name of a parameter as the C string that the engine is handed.
pub open spec fn c_name(name: Seq<char>) -> Seq<u8> {
    with_nul(encode_utf8(name))
}

/// What a status code and a slot make of a read: the slot's content where
/// the status is zero, the status itself where it is not.
pub open spec fn slot_result<S>(status: i32, slot: S) -> Result<S, i32> {
    if status == 0 {
        Ok(slot)
    } else {
        Err(status)
    }
}

/// A parameter of an environment. The type of the identifier fixes the kind
/// of the parameter, and with it the type of its value and the pair of
/// native functions that read and write it.
///
/// Reading and writing are each done in two steps, with the native call
/// between them left to the caller: `get_param` and `set_param` say which
/// call to make and with what, `get_result` and `check_error_code` say what
/// the engine's answer means.
pub trait Param: Sized {
    /// The type of the parameter's value.
    type Value;

    /// What the engine's read function fills.
    type Slot;

    /// What the engine's write function is handed.
    type Arg;

    /// The kind of the parameter.
    spec fn category() -> Category;

    /// The parameter's name.
    spec fn name(self) -> Seq<char>;

    /// True of a slot that the engine has not written to yet.
    spec fn fresh(slot: Self::Slot) -> bool;

    /// True when `value` is what the content of `slot` stands for.
    spec fn reads_as(slot: Self::Slot, value: Self::Value) -> bool;

    /// True when `value` can be handed to the engine.
    spec fn writable(value: Self::Value) -> bool;

    /// True when `arg` is what the engine is handed for `value`.
    spec fn writes_as(value: Self::Value, arg: Self::Arg) -> bool;

    /// The call that reads the parameter: the read function of its kind,
    /// its name, and a fresh slot for the engine to fill.
    fn get_param(self) -> (call: ReadCall<Self::Slot>)
        ensures
            call.function == Self::category().read_fn(),
            call.name@ == c_name(self.name()),
            c_str_bytes(call.name@) == encode_utf8(self.name()),
            Self::fresh(call.slot),
    ;

    /// The outcome of a read, from the status code that the call returned
    /// and the slot that it was made with. A status other than zero is the
    /// error, unchanged; with a status of zero the slot holds the value.
    fn get_result(status: i32, slot: Self::Slot) -> (r: Result<Self::Value, i32>)
        ensures
            status != 0 ==> r == Err::<Self::Value, i32>(status),
            status == 0 ==> r is Ok,
            r matches Ok(value) ==> Self::reads_as(slot, value),
    ;

    /// The call that writes `value` to the parameter: the write function of
    /// its kind, its name, and the value in the form that the engine takes.
    /// A value that cannot be handed to the engine is an invalid argument,
    /// and there is then no call to make.
    fn set_param(self, value: Self::Value) -> (r: Result<WriteCall<Self::Arg>, i32>)
        ensures
            r is Ok <==> Self::writable(value),
            r is Err ==> r == Err::<WriteCall<Self::Arg>, i32>(ERROR_INVALID_ARGUMENT),
            r matches Ok(call) ==> call.function == Self::category().write_fn(),
            r matches Ok(call) ==> call.name@ == c_name(self.name()),
            r matches Ok(call) ==> c_str_bytes(call.name@) == encode_utf8(self.name()),
            r matches Ok(call) ==> Self::writes_as(value, call.value),
    ;
}

/// The read of a parameter whose value the engine writes into a slot of the
/// value's own type.
fn plain_read<S>(name: ParamName, function: NativeFn, initial: S) -> (call: ReadCall<S>)
    ensures
        call.function == function,
        call.name@ == c_name(name@),
        c_str_bytes(call.name@) == encode_utf8(name@),
        call.slot == initial,
{
    ReadCall { function, name: name.to_c_string(), slot: initial }
}

/// The outcome of such a read.
fn plain_result<S>(status: i32, slot: S) -> (r: Result<S, i32>)
    ensures
        r == slot_result(status, slot),
{
    if status == 0 {
        Ok(slot)
    } else {
        Err(status)
    }
}

/// The write of a parameter whose value the engine takes as it is.
fn plain_write<S>(name: ParamName, function: NativeFn, value: S) -> (call: WriteCall<S>)
    ensures
        call.function == function,
        call.name@ == c_name(name@),
        c_str_bytes(call.name@) == encode_utf8(name@),
        call.value == value,
{
    WriteCall { function, name: name.to_c_string(), value }
}

/// The identifier of an integer parameter.
#[derive(Clone, Copy, Debug, PartialEq, Eq, Hash)]
pub struct IntParam {
    pub name: ParamName,
}

/// The identifier of a real parameter.
#[derive(Clone, Copy, Debug, PartialEq, Eq, Hash)]
pub struct DoubleParam {
    pub name: ParamName,
}

/// The identifier of a string parameter.
#[derive(Clone, Copy, Debug, PartialEq, Eq, Hash)]
pub struct StringParam {
    pub name: ParamName,
}

impl IntParam {
    /// The integer parameter of the given name; `None` where the name holds
    /// a NUL character.
    pub fn new(name: &'static str) -> (r: Option<IntParam>)
        ensures
            r is Some <==> !name@.contains('\0'),
            r matches Some(p) ==> p.name() == name@,
    {
        match ParamName::new(name) {
            Some(name) => Some(IntParam { name }),
            None => None,
        }
    }
}

impl DoubleParam {
    /// The real parameter of the given name; `None` where the name holds a
    /// NUL character.
    pub fn new(name: &'static str) -> (r: Option<DoubleParam>)
        ensures
            r is Some <==> !name@.contains('\0'),
            r matches Some(p) ==> p.name() == name@,
    {
        match ParamName::new(name) {
            Some(name) => Some(DoubleParam { name }),
            None => None,
        }
    }
}

impl StringParam {
    /// The string parameter of the given name; `None` where the name holds
    /// a NUL character.
    pub fn new(name: &'static str) -> (r: Option<StringParam>)
        ensures
            r is Some <==> !name@.contains('\0'),
            r matches Some(p) ==> p.name() == name@,
    {
        match ParamName::new(name) {
            Some(name) => Some(StringParam { name }),
            None => None,
        }
    }
}

impl Param for IntParam {
    type Value = i32;

    type Slot = i32;

    type Arg = i32;

    open spec fn category() -> Category {
        Category::Int
    }

    open spec fn name(self) -> Seq<char> {
        self.name@
    }

    open spec fn fresh(slot: i32) -> bool {
        slot == 0
    }

    open spec fn reads_as(slot: i32, value: i32) -> bool {
        value == slot
    }

    open spec fn writable(value: i32) -> bool {
        true
    }

    open spec fn writes_as(value: i32, arg: i32) -> bool {
        arg == value
    }

    fn get_param(self) -> (call: ReadCall<i32>) {
        plain_read(self.name, Category::Int.read_fn(), 0)
    }

    fn get_result(status: i32, slot: i32) -> (r: Result<i32, i32>)
        ensures
            r == slot_result(status, slot),
    {
        plain_result(status, slot)
    }

    fn set_param(self, value: i32) -> (r: Result<WriteCall<i32>, i32>) {
        Ok(plain_write(self.name, Category::Int.write_fn(), value))
    }
}

impl Param for DoubleParam {
    type Value = Double;

    type Slot = Double;

    type Arg = Double;

    open spec fn category() -> Category {
        Category::Double
    }

    open spec fn name(self) -> Seq<char> {
        self.name@
    }

    open spec fn fresh(slot: Double) -> bool {
        slot.bits == NAN_BITS
    }

    open spec fn reads_as(slot: Double, value: Double) -> bool {
        value == slot
    }

    open spec fn writable(value: Double) -> bool {
        true
    }

    open spec fn writes_as(value: Double, arg: Double) -> bool {
        arg == value
    }

    fn get_param(self) -> (call: ReadCall<Double>) {
        plain_read(self.name, Category::Double.read_fn(), Double::nan())
    }

    fn get_result(status: i32, slot: Double) -> (r: Result<Double, i32>)
        ensures
            r == slot_result(status, slot),
    {
        plain_result(status, slot)
    }

    fn set_param(self, value: Double) -> (r: Result<WriteCall<Double>, i32>) {
        Ok(plain_write(self.name, Category::Double.write_fn(), value))
    }
}

impl Param for StringParam {
    type Value = String;

    type Slot = [u8; GRB_MAX_STRLEN];

    type Arg = Vec<u8>;

    open spec fn category() -> Category {
        Category::Str
    }

    open spec fn name(self) -> Seq<char> {
        self.name@
    }

    open spec fn fresh(slot: [u8; GRB_MAX_STRLEN]) -> bool {
        forall|i: int| 0 <= i < slot@.len() ==> slot@[i] == NUL
    }

    open spec fn reads_as(slot: [u8; GRB_MAX_STRLEN], value: String) -> bool {
        value@ == text_of(c_str_bytes(slot@))
    }

    open spec fn writable(value: String) -> bool {
        !value@.contains('\0')
    }

    open spec fn writes_as(value: String, arg: Vec<u8>) -> bool {
        arg@ == with_nul(encode_utf8(value@))
    }

    fn get_param(self) -> (call: ReadCall<[u8; GRB_MAX_STRLEN]>) {
        let slot: [u8; GRB_MAX_STRLEN] = [NUL; GRB_MAX_STRLEN];
        ReadCall { function: Category::Str.read_fn(), name: self.name.to_c_string(), slot }
    }

    fn get_result(status: i32, slot: [u8; GRB_MAX_STRLEN]) -> (r: Result<String, i32>) {
        if status == 0 {
            Ok(copy_c_str(slot.as_slice()))
        } else {
            Err(status)
        }
    }

    fn set_param(self, value: String) -> (r: Result<WriteCall<Vec<u8>>, i32>) {
        proof {
            lemma_encode_utf8_nul(value@);
        }
        match to_c_string(value.as_str().as_bytes()) {
            Some(arg) => Ok(
                WriteCall {
                    function: Category::Str.write_fn(),
                    name: self.name.to_c_string(),
                    value: arg,
                },
            ),
            None => Err(ERROR_INVALID_ARGUMENT),
        }
    }
}

/// The type of an identifier binds it to one kind of parameter, and so to
/// one type of value and one pair of native functions: no identifier of one
/// kind is read or written through the functions of another.
pub proof fn lemma_kinds_are_bound()
    ensures
        IntParam::category() == Category::Int,
        DoubleParam::category() == Category::Double,
        StringParam::category() == Category::Str,
        IntParam::category().read_fn() == NativeFn::GetIntParam,
        IntParam::category().write_fn() == NativeFn::SetIntParam,
        DoubleParam::category().read_fn() == NativeFn::GetDblParam,
        DoubleParam::category().write_fn() == NativeFn::SetDblParam,
        StringParam::category().read_fn() == NativeFn::GetStrParam,
        StringParam::category().write_fn() == NativeFn::SetStrParam,
{
}

/// A buffer that the engine has filled to the last byte, leaving no room
/// for a terminator, is read to its end and no further: the text is that of
/// the whole buffer.
pub proof fn lemma_full_buffer_is_read_whole(slot: [u8; GRB_MAX_STRLEN], back: String)
    requires
        !slot@.contains(NUL),
        StringParam::reads_as(slot, back),
    ensures
        c_str_bytes(slot@).len() == GRB_MAX_STRLEN,
        back@ == text_of(slot@),
{
    lemma_unterminated_is_whole(slot@);
}

/// An integer that was written reads back as itself, once the engine hands
/// back what it was handed.
pub proof fn lemma_int_round_trip(value: i32, arg: i32, back: i32)
    requires
        IntParam::writes_as(value, arg),
        IntParam::reads_as(arg, back),
    ensures
        back == value,
{
}

/// A real number that was written reads back bit for bit, once the engine
/// hands back what it was handed.
pub proof fn lemma_double_round_trip(value: Double, arg: Double, back: Double)
    requires
        DoubleParam::writes_as(value, arg),
        DoubleParam::reads_as(arg, back),
    ensures
        back == value,
{
}

/// Text that was written reads back as far as its first NUL character, once
/// the engine has copied what it was handed into the front of the buffer;
/// text that could be written at all holds no such character and reads back
/// whole.
pub proof fn lemma_string_round_trip(
    value: String,
    arg: Vec<u8>,
    slot: [u8; GRB_MAX_STRLEN],
    back: String,
)
    requires
        StringParam::writes_as(value, arg),
        arg@.is_prefix_of(slot@),
        StringParam::reads_as(slot, back),
    ensures
        back@ == text_before_nul(value@),
        StringParam::writable(value) ==> back@ == value@,
{
    lemma_text_round_trip(value@, slot@);
}

} // verus!
