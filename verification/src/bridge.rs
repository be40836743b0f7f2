//! The native-module bridge: exclusive owner of one sandboxed module
//! instance, its linear memory and its exported functions. Everything
//! crossing the boundary is raw bytes or 32-bit words; the typed surface
//! on top is built of explicit, fallible conversions.

use vstd::prelude::*;

use crate::errors::{Error, FeatureError};
use crate::wasm_value::{WASMValue, Word};

verus! {

/// The Barretenberg module gives us 1024 bytes of scratch space at the
/// bottom of its linear memory. Writing short-lived call arguments there
/// would save an allocate round trip, but the region is a single shared
/// buffer: a second in-flight call could overwrite it mid-use, so this
/// bridge allocates a dedicated block per call instead.
pub const WASM_SCRATCH_BYTES: usize = 1024;

#[verifier::external_type_specification]
#[verifier::external_body]
pub struct ExStore(wasmer::Store);

#[verifier::external_type_specification]
#[verifier::external_body]
pub struct ExMemory(wasmer::Memory);

#[verifier::external_type_specification]
#[verifier::external_body]
pub struct ExInstance(wasmer::Instance);

#[verifier::external_type_specification]
#[verifier::external_body]
pub struct ExValue(wasmer::Value);

/// The owned connection to one sandboxed module: its store, its linear
/// memory and its instantiated exports. One handle must never be shared
/// across concurrent executions; the linear memory is not safe for
/// concurrent use.
#[verifier::external_body]
pub struct Barretenberg {
    store: wasmer::Store,
    memory: wasmer::Memory,
    instance: wasmer::Instance,
}

/// What the module's linear memory holds, byte for byte. Its length is the
/// memory's current size. A module call may rewrite or grow the memory, so
/// no contract relates the contents across `call_multiple`.
pub uninterp spec fn mem_contents(b: Barretenberg) -> Seq<u8>;

/// The memory after `data` is laid down at `offset`: bytes in the written
/// range come from `data`, every other byte is unchanged.
pub open spec fn write_bytes(m: Seq<u8>, offset: int, data: Seq<u8>) -> Seq<u8> {
    Seq::new(m.len(), |i: int| if offset <= i < offset + data.len() { data[i - offset] } else { m[i] })
}

/// Law: writing bytes and reading the same range yields the written bytes
/// back, and re-running the write with the same bytes at the same offset
/// leaves the memory exactly as it was after the first write, so the pair
/// is idempotent.
pub proof fn lemma_write_then_read(m: Seq<u8>, offset: int, data: Seq<u8>)
    requires
        0 <= offset,
        offset + data.len() <= m.len(),
    ensures
        write_bytes(m, offset, data).subrange(offset, offset + data.len() as int) == data,
        write_bytes(write_bytes(m, offset, data), offset, data) == write_bytes(m, offset, data),
{
    assert(write_bytes(m, offset, data).subrange(offset, offset + data.len() as int) =~= data);
    assert(write_bytes(write_bytes(m, offset, data), offset, data) =~= write_bytes(
        m,
        offset,
        data,
    ));
}

/// The linear-memory offset a pointer word stands for: pointers are
/// unsigned 32-bit offsets, returned through a signed 32-bit word.
pub open spec fn offset_of_ptr(p: i32) -> int {
    if p >= 0 {
        p as int
    } else {
        p + 0x1_0000_0000
    }
}

/// Reinterprets a pointer word as an unsigned linear-memory offset.
pub fn ptr_to_offset(p: i32) -> (r: usize)
    ensures
        r == offset_of_ptr(p),
{
    if p >= 0 {
        p as usize
    } else {
        ((p as i64) + 0x1_0000_0000i64) as usize
    }
}

impl Barretenberg {
    /// Forms the bridge from an already-instantiated module. Relies on
    /// wasmer only to hold the three parts together; nothing is assumed
    /// of the memory's contents. The three parts must belong together:
    /// the memory and the instance created in this very store, the
    /// memory the one the instance imports — wasmer aborts on a
    /// mismatched pair.
    #[verifier::external_body]
    pub fn from_parts(store: wasmer::Store, memory: wasmer::Memory, instance: wasmer::Instance) -> (r:
        Barretenberg)
    {
        Barretenberg { store, memory, instance }
    }

    /// Relies on `wasmer::Memory::view` and `wasmer::MemoryView::write`:
    /// the write fills the whole target range, fails exactly when the
    /// range reaches past the memory's current size, and on failure
    /// changes nothing.
    #[verifier::external_body]
    fn mem_write(&mut self, data: &Vec<u8>, offset: usize) -> (r: Result<(), Error>)
        ensures
            match r {
                Ok(_) => offset + data@.len() <= mem_contents(*old(self)).len() && mem_contents(
                    *final(self),
                ) == write_bytes(mem_contents(*old(self)), offset as int, data@),
                Err(e) => offset + data@.len() > mem_contents(*old(self)).len() && mem_contents(
                    *final(self),
                ) == mem_contents(*old(self)) && e == Error::FromFeature(
                    FeatureError::OutOfBoundsMemoryAccess,
                ),
            },
    {
        let view = self.memory.view(&self.store);
        view.write(offset as u64, data.as_slice()).map_err(|_| Error::FromFeature(
            FeatureError::OutOfBoundsMemoryAccess,
        ))
    }

    /// Relies on `wasmer::Memory::view` and `wasmer::MemoryView::read`:
    /// the read fills the whole buffer from the memory at the offset, and
    /// fails exactly when the range reaches past the memory's current
    /// size.
    #[verifier::external_body]
    fn mem_read(&self, offset: usize, length: usize) -> (r: Result<Vec<u8>, Error>)
        ensures
            match r {
                Ok(v) => offset + length <= mem_contents(*self).len() && v@ == mem_contents(
                    *self,
                ).subrange(offset as int, offset + length),
                Err(e) => offset + length > mem_contents(*self).len() && e == Error::FromFeature(
                    FeatureError::OutOfBoundsMemoryAccess,
                ),
            },
    {
        let mut buf = vec![0u8; length];
        let view = self.memory.view(&self.store);
        match view.read(offset as u64, &mut buf) {
            Ok(()) => Ok(buf),
            Err(_) => Err(Error::FromFeature(FeatureError::OutOfBoundsMemoryAccess)),
        }
    }

    /// Relies on `wasmer::Exports::get_function` and
    /// `wasmer::Function::call`: a missing (or non-function) export is
    /// reported by a pure lookup, before any module code runs, so the
    /// linear memory is untouched then; a trap during the call is
    /// reported with the export's name; on success at most the first
    /// returned word is kept. A successful call may rewrite or grow the
    /// linear memory, so nothing is assumed of the memory afterwards.
    /// Relies further on the embedding's host imports reporting failure
    /// as a `wasmer::RuntimeError` trap, never by panicking: a panic
    /// inside a host import is resumed as a panic out of
    /// `Function::call` and would not return through this wrapper.
    #[verifier::external_body]
    fn call_export(&mut self, name: &str, args: &Vec<Word>) -> (r: Result<
        Option<wasmer::Value>,
        FeatureError,
    >)
        requires
            forall|i: int| 0 <= i < args@.len() ==> !(args@[i] is Other),
        ensures
            r matches Err(e) ==> (e matches FeatureError::InvalidExport { name: n } && n@ == name@)
                || (e matches FeatureError::FunctionCallFailed { name: n } && n@ == name@),
            r matches Err(FeatureError::InvalidExport { .. }) ==> mem_contents(*final(self))
                == mem_contents(*old(self)),
    {
        let vals: Vec<wasmer::Value> = args.iter().map(|a| match a {
            Word::I32(x) => wasmer::Value::I32(*x),
            Word::I64(x) => wasmer::Value::I64(*x),
            Word::Other => wasmer::Value::I32(0),
        }).collect();
        let func = match self.instance.exports.get_function(name) {
            Ok(f) => f,
            Err(_) => return Err(FeatureError::InvalidExport { name: name.to_string() }),
        };
        match func.call(&mut self.store, &vals) {
            Ok(ret) => Ok(ret.first().cloned()),
            Err(_) => Err(FeatureError::FunctionCallFailed { name: name.to_string() }),
        }
    }

    /// Transfers bytes to the module's heap at an absolute offset. No
    /// bounds growth: the write fails if the target range exceeds the
    /// memory's current size, and then changes nothing.
    pub fn transfer_to_heap(&mut self, data: &Vec<u8>, offset: usize) -> (r: Result<(), Error>)
        ensures
            r is Ok <==> offset + data@.len() <= mem_contents(*old(self)).len(),
            r is Ok ==> mem_contents(*final(self)) == write_bytes(
                mem_contents(*old(self)),
                offset as int,
                data@,
            ),
            r is Err ==> mem_contents(*final(self)) == mem_contents(*old(self)) && r == Err::<
                (),
                _,
            >(Error::FromFeature(FeatureError::OutOfBoundsMemoryAccess)),
    {
        self.mem_write(data, offset)
    }

    /// Reads exactly `length` bytes starting at `offset`, failing if the
    /// range exceeds the memory's current size.
    pub fn read_memory_variable_length(&self, offset: usize, length: usize) -> (r: Result<
        Vec<u8>,
        Error,
    >)
        ensures
            r is Ok <==> offset + length <= mem_contents(*self).len(),
            r matches Ok(v) ==> v@ == mem_contents(*self).subrange(offset as int, offset + length)
                && v@.len() == length,
            r is Err ==> r == Err::<Vec<u8>, _>(
                Error::FromFeature(FeatureError::OutOfBoundsMemoryAccess),
            ),
    {
        self.mem_read(offset, length)
    }

    /// Reads exactly `SIZE` bytes starting at `start`; the length of what
    /// comes back is proved, not checked at run time.
    pub fn read_memory<const SIZE: usize>(&self, start: usize) -> (r: Result<Vec<u8>, Error>)
        ensures
            r is Ok <==> start + SIZE <= mem_contents(*self).len(),
            r matches Ok(v) ==> v@ == mem_contents(*self).subrange(start as int, start + SIZE)
                && v@.len() == SIZE,
            r is Err ==> r == Err::<Vec<u8>, _>(
                Error::FromFeature(FeatureError::OutOfBoundsMemoryAccess),
            ),
    {
        self.read_memory_variable_length(start, SIZE)
    }

    /// Invokes an export with a single argument word.
    pub fn call(&mut self, name: &str, param: &WASMValue) -> (r: Result<WASMValue, Error>)
        ensures
            r is Ok ==> (param@ matches Some(w) && !(w is Other)),
            param@ is None ==> (r == Err::<WASMValue, Error>(
                Error::FromFeature(FeatureError::NoValue),
            ) && mem_contents(*final(self)) == mem_contents(*old(self))),
            (param@ matches Some(w) && w is Other) ==> (r == Err::<WASMValue, Error>(
                Error::FromFeature(FeatureError::InvalidI32),
            ) && mem_contents(*final(self)) == mem_contents(*old(self))),
            (param@ matches Some(w) && !(w is Other)) ==> (r matches Err(e) ==> export_call_error(
                e,
                name@,
            )),
            r matches Err(Error::FromFeature(FeatureError::InvalidExport { .. }))
                ==> mem_contents(*final(self)) == mem_contents(*old(self)),
    {
        let mut params: Vec<WASMValue> = Vec::new();
        params.push(*param);
        let r = self.call_multiple(name, &params);
        proof {
            assert(params@[0]@ == param@);
            if param@ is None || (param@ matches Some(w) && w is Other) {
                assert(!args_usable(params@));
            } else {
                assert(args_usable(params@));
            }
        }
        r
    }

    /// Invokes an export by name with word-sized arguments, returning at
    /// most one word. An argument that carries no word, or one of another
    /// kind than a 32- or 64-bit integer, is refused before any export is
    /// looked up or called; the module decides a successful call's value,
    /// so nothing is promised of it.
    pub fn call_multiple(&mut self, name: &str, params: &Vec<WASMValue>) -> (r: Result<
        WASMValue,
        Error,
    >)
        ensures
            r is Ok ==> args_usable(params@),
            !args_usable(params@) ==> (r matches Err(Error::FromFeature(fe)) && first_arg_error(
                params@,
                fe,
            ) && mem_contents(*final(self)) == mem_contents(*old(self))),
            args_usable(params@) ==> (r matches Err(e) ==> export_call_error(e, name@)),
            r matches Err(Error::FromFeature(FeatureError::InvalidExport { .. })) ==> mem_contents(
                *final(self),
            ) == mem_contents(*old(self)),
    {
        let mut args: Vec<Word> = Vec::new();
        let n = params.len();
        let mut i: usize = 0;
        while i < n
            invariant
                n == params@.len(),
                0 <= i <= n,
                args@.len() == i,
                forall|j: int| 0 <= j < i ==> !((#[trigger] args@[j]) is Other),
                forall|j: int| 0 <= j < i ==> (#[trigger] params@[j]@) == Some(args@[j]),
            decreases n - i,
        {
            let word = match params[i].word() {
                Ok(w) => w,
                Err(e) => {
                    proof {
                        assert(params@[i as int]@ is None);
                        assert(first_arg_error(params@, FeatureError::NoValue));
                        assert(!args_usable(params@));
                    }
                    return Err(Error::FromFeature(e));
                },
            };
            match word {
                Word::Other => {
                    proof {
                        assert(params@[i as int]@ == Some(Word::Other));
                        assert(first_arg_error(params@, FeatureError::InvalidI32));
                        assert(!args_usable(params@));
                    }
                    return Err(Error::FromFeature(FeatureError::InvalidI32));
                },
                _ => {
                    args.push(word);
                },
            }
            i += 1;
        }
        proof {
            assert(args_usable(params@));
        }
        match self.call_export(name, &args) {
            Ok(ret) => Ok(first_return_word(ret)),
            Err(e) => Err(Error::FromFeature(e)),
        }
    }

    /// Creates a pointer with the module's own allocator export,
    /// `bbmalloc`, which takes a byte length and returns a pointer, and
    /// lays the bytes down at the offset it returned: on success the
    /// returned pointer's range holds exactly `bytes`; on failure the
    /// propagated error names the allocator export or the failing
    /// conversion, and a missing allocator leaves the memory untouched.
    pub fn allocate(&mut self, bytes: &Vec<u8>) -> (r: Result<WASMValue, Error>)
        requires
            bytes@.len() <= i32::MAX,
        ensures
            match r {
                Ok(v) => match v@ {
                    Some(w) => w matches Word::I32(p) && offset_of_ptr(p) + bytes@.len()
                        <= mem_contents(*final(self)).len() && mem_contents(*final(self)).subrange(
                        offset_of_ptr(p),
                        offset_of_ptr(p) + bytes@.len(),
                    ) == bytes@,
                    None => false,
                },
                Err(e) => allocator_error(e) && ((e matches Error::FromFeature(
                    FeatureError::InvalidExport { .. },
                )) ==> mem_contents(*final(self)) == mem_contents(*old(self))),
            },
    {
        let len_word = WASMValue::from_usize(bytes.len());
        let ret = self.call("bbmalloc", &len_word)?;
        let ptr: i32 = match ret.try_into_i32() {
            Ok(p) => p,
            Err(e) => {
                return Err(Error::FromFeature(e));
            },
        };
        let offset = ptr_to_offset(ptr);
        let ghost m_mid = mem_contents(*self);
        self.transfer_to_heap(bytes, offset)?;
        proof {
            lemma_write_then_read(m_mid, offset as int, bytes@);
        }
        Ok(WASMValue::from_i32(ptr))
    }
}

/// Every argument carries a 32- or 64-bit word, so a call can reach the
/// module.
pub open spec fn args_usable(params: Seq<WASMValue>) -> bool {
    forall|i: int|
        0 <= i < params.len() ==> ((#[trigger] params[i]@) matches Some(w) && !(w is Other))
}

/// The conversion failure of the first argument carrying no usable word,
/// reported before any export is looked up: an argument with no word at
/// all gives `NoValue`, one with a word of another kind `InvalidI32`.
pub open spec fn first_arg_error(params: Seq<WASMValue>, fe: FeatureError) -> bool {
    exists|i: int|
        0 <= i < params.len() && (forall|j: int|
            0 <= j < i ==> ((#[trigger] params[j]@) matches Some(w) && !(w is Other))) && (((
        #[trigger] params[i]@) is None && fe == FeatureError::NoValue) || (params[i]@ matches Some(
            w,
        ) && w is Other && fe == FeatureError::InvalidI32))
}

/// With every argument usable, the only failures an export call reports
/// are the export missing or the invocation trapping, each under the
/// export's name.
pub open spec fn export_call_error(e: Error, name: Seq<char>) -> bool {
    match e {
        Error::FromFeature(fe) => match fe {
            FeatureError::InvalidExport { name: n } => n@ == name,
            FeatureError::FunctionCallFailed { name: n } => n@ == name,
            _ => false,
        },
    }
}

/// The failures an operation built of allocations, one export call and
/// result reads can surface: an allocator failure, or the named export
/// missing or trapping.
pub open spec fn module_op_error(e: Error, export: Seq<char>) -> bool {
    allocator_error(e) || export_call_error(e, export)
}

/// The failures `allocate` can surface: the allocator export missing or
/// trapping, reported under its name; a returned pointer word that is
/// absent or not a 32-bit integer; or a write reaching past the memory.
pub open spec fn allocator_error(e: Error) -> bool {
    match e {
        Error::FromFeature(fe) => match fe {
            FeatureError::InvalidExport { name: n } => n@ == "bbmalloc"@,
            FeatureError::FunctionCallFailed { name: n } => n@ == "bbmalloc"@,
            FeatureError::NoValue => true,
            FeatureError::InvalidI32 => true,
            FeatureError::OutOfBoundsMemoryAccess => true,
            FeatureError::InvalidU32 { .. } => false,
            FeatureError::InvalidUsize { .. } => false,
            FeatureError::InvalidBool => false,
        },
    }
}

/// Relies on nothing of wasmer but the shape of `wasmer::Value`: keeps a
/// 32- or 64-bit integer word and stands in `Word::Other` for a value of
/// any other kind, so that no typed conversion accepts it.
#[verifier::external_body]
fn first_return_word(ret: Option<wasmer::Value>) -> (r: WASMValue) {
    WASMValue::new(match ret {
        None => None,
        Some(wasmer::Value::I32(x)) => Some(Word::I32(x)),
        Some(wasmer::Value::I64(x)) => Some(Word::I64(x)),
        Some(_) => Some(Word::Other),
    })
}

} // verus!
