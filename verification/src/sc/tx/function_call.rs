//! A call of a contract endpoint or of a builtin function.

use vstd::prelude::*;
use crate::sc::types::{ManagedArgBuffer, ManagedBuffer};
use crate::types::bytes::buffers_view;

verus! {

/// What a call says: the function's name and the arguments in order.
pub struct FunctionCallView {
    pub function_name: Seq<u8>,
    pub arg_buffer: Seq<Seq<u8>>,
}

/// The lower-case hexadecimal digit of a number below sixteen, as a character code.
pub open spec fn hex_digit(nibble: u8) -> u8 {
    if nibble < 10 {
        (48 + nibble) as u8
    } else {
        (87 + nibble) as u8
    }
}

/// The bytes written as lower-case hexadecimal digits, two for each byte.
pub open spec fn hex_of(bytes: Seq<u8>) -> Seq<u8>
    decreases bytes.len(),
{
    if bytes.len() == 0 {
        Seq::empty()
    } else {
        hex_of(bytes.drop_last()) + seq![hex_digit(bytes.last() / 16), hex_digit(bytes.last() % 16)]
    }
}

/// The arguments as they stand in a transaction's data field: each behind an `@`, in
/// hexadecimal.
pub open spec fn call_data_arguments(args: Seq<Seq<u8>>) -> Seq<u8>
    decreases args.len(),
{
    if args.len() == 0 {
        Seq::empty()
    } else {
        call_data_arguments(args.drop_last()) + seq![64u8] + hex_of(args.last())
    }
}

/// The call as it stands in a transaction's data field: the function's name, then the
/// arguments.
pub open spec fn call_data(call: FunctionCallView) -> Seq<u8> {
    call.function_name + call_data_arguments(call.arg_buffer)
}

/// A call of a contract endpoint or of a builtin function: the function's name and the
/// arguments, serialized, in order. An empty name stands for no call.
#[derive(Clone, Debug)]
pub struct FunctionCall {
    pub function_name: ManagedBuffer,
    pub arg_buffer: ManagedArgBuffer,
}

impl View for FunctionCall {
    type V = FunctionCallView;

    open spec fn view(&self) -> FunctionCallView {
        FunctionCallView {
            function_name: self.function_name@,
            arg_buffer: buffers_view(self.arg_buffer@),
        }
    }
}

fn hex_digit_of(nibble: u8) -> (r: u8)
    requires
        nibble < 16,
    ensures
        r == hex_digit(nibble),
{
    if nibble < 10 {
        48 + nibble
    } else {
        87 + nibble
    }
}

fn append_hex(out: &mut Vec<u8>, bytes: &Vec<u8>)
    ensures
        final(out)@ == old(out)@ + hex_of(bytes@),
{
    let mut i: usize = 0;
    assert(bytes@.take(0) =~= Seq::<u8>::empty());
    assert(out@ =~= old(out)@ + hex_of(bytes@.take(0)));
    while i < bytes.len()
        invariant
            i <= bytes@.len(),
            out@ == old(out)@ + hex_of(bytes@.take(i as int)),
        decreases bytes.len() - i,
    {
        let byte = bytes[i];
        out.push(hex_digit_of(byte / 16));
        out.push(hex_digit_of(byte % 16));
        proof {
            let next = bytes@.take(i + 1);
            assert(next.drop_last() =~= bytes@.take(i as int));
            assert(next.last() == byte);
            assert(out@ =~= old(out)@ + hex_of(next));
        }
        i += 1;
    }
    proof {
        assert(bytes@.take(i as int) =~= bytes@);
    }
}

impl FunctionCall {
    /// A call of `function_name` without arguments.
    pub fn new(function_name: ManagedBuffer) -> (r: Self)
        ensures
            r.function_name == function_name,
            r@.arg_buffer == Seq::<Seq<u8>>::empty(),
    {
        let r = FunctionCall { function_name, arg_buffer: Vec::new() };
        assert(r@.arg_buffer =~= Seq::<Seq<u8>>::empty());
        r
    }

    /// No call.
    pub fn empty() -> (r: Self)
        ensures
            r@.function_name == Seq::<u8>::empty(),
            r@.arg_buffer == Seq::<Seq<u8>>::empty(),
    {
        FunctionCall::new(Vec::new())
    }

    /// Whether this stands for no call.
    pub fn is_empty(&self) -> (r: bool)
        ensures
            r == (self@.function_name.len() == 0),
    {
        self.function_name.len() == 0
    }

    /// The same call with `raw`, a serialized argument, added behind its arguments.
    pub fn argument_raw(self, raw: Vec<u8>) -> (r: Self)
        ensures
            r.function_name == self.function_name,
            r.arg_buffer@ == self.arg_buffer@.push(raw),
            r@.arg_buffer == self@.arg_buffer.push(raw@),
    {
        let mut call = self;
        call.arg_buffer.push(raw);
        assert(call@.arg_buffer =~= self@.arg_buffer.push(raw@));
        call
    }

    /// The same call with the serialized arguments `raw` in place of its arguments.
    pub fn arguments_raw(self, raw: ManagedArgBuffer) -> (r: Self)
        ensures
            r.function_name == self.function_name,
            r.arg_buffer == raw,
    {
        let mut call = self;
        call.arg_buffer = raw;
        call
    }

    /// The call as it stands in a transaction's data field: the name, then each argument
    /// behind an `@`, in lower-case hexadecimal.
    pub fn to_call_data_string(&self) -> (r: ManagedBuffer)
        ensures
            r@ == call_data(self@),
    {
        let mut result = self.function_name.clone();
        let ghost args = buffers_view(self.arg_buffer@);
        let mut i: usize = 0;
        assert(args.take(0) =~= Seq::<Seq<u8>>::empty());
        assert(result@ =~= self.function_name@ + call_data_arguments(args.take(0)));
        while i < self.arg_buffer.len()
            invariant
                i <= self.arg_buffer@.len(),
                args == buffers_view(self.arg_buffer@),
                result@ == self.function_name@ + call_data_arguments(args.take(i as int)),
            decreases self.arg_buffer.len() - i,
        {
            result.push(64u8);
            append_hex(&mut result, &self.arg_buffer[i]);
            proof {
                let next = args.take(i + 1);
                assert(next.drop_last() =~= args.take(i as int));
                assert(next.last() == self.arg_buffer@[i as int]@);
                assert(result@ =~= self.function_name@ + call_data_arguments(next));
            }
            i += 1;
        }
        proof {
            assert(args.take(i as int) =~= args);
        }
        result
    }

    /// A copy of the call.
    pub fn duplicate(&self) -> (r: Self)
        ensures
            r@ == self@,
    {
        FunctionCall {
            function_name: self.function_name.clone(),
            arg_buffer: crate::types::bytes::buffers_to_vec(self.arg_buffer.as_slice()),
        }
    }
}

} // verus!
