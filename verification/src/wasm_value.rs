//! Words crossing the module boundary. The module exposes no structured
//! ABI: every argument and result is an untyped word or a raw byte range,
//! so every typed reading of a result is an explicit, fallible conversion.

use vstd::prelude::*;

use crate::errors::FeatureError;

verus! {

/// One raw word as the module returns it: a 32-bit or 64-bit integer, or
/// a value of some other kind, which no typed conversion accepts.
#[derive(Debug, Clone, Copy, PartialEq, Eq, Structural)]
pub enum Word {
    I32(i32),
    I64(i64),
    Other,
}

/// The arguments to or the return value from a module call. Not every call
/// returns a value: some are made only to manipulate the module's heap.
#[derive(Debug, Clone, Copy)]
pub struct WASMValue {
    value: Option<Word>,
}

impl View for WASMValue {
    type V = Option<Word>;

    closed spec fn view(&self) -> Option<Word> {
        self.value
    }
}

impl WASMValue {
    pub fn new(value: Option<Word>) -> (r: WASMValue)
        ensures
            r@ == value,
    {
        WASMValue { value }
    }

    pub fn from_i32(value: i32) -> (r: WASMValue)
        ensures
            r@ == Some(Word::I32(value)),
    {
        WASMValue { value: Some(Word::I32(value)) }
    }

    /// A length or offset handed to the module as a 32-bit word.
    pub fn from_usize(value: usize) -> (r: WASMValue)
        requires
            value <= i32::MAX,
        ensures
            r@ == Some(Word::I32(value as i32)),
    {
        WASMValue { value: Some(Word::I32(value as i32)) }
    }

    /// The raw word, if the call returned one at all.
    pub fn word(&self) -> (r: Result<Word, FeatureError>)
        ensures
            match r {
                Ok(w) => self@ == Some(w),
                Err(e) => self@ is None && e == FeatureError::NoValue,
            },
    {
        match self.value {
            Some(w) => Ok(w),
            None => Err(FeatureError::NoValue),
        }
    }

    /// The word as a signed 32-bit integer.
    pub fn try_into_i32(&self) -> (r: Result<i32, FeatureError>)
        ensures
            match r {
                Ok(x) => self@ == Some(Word::I32(x)),
                Err(e) => match self@ {
                    None => e == FeatureError::NoValue,
                    Some(w) => !(w is I32) && e == FeatureError::InvalidI32,
                },
            },
    {
        match self.word()? {
            Word::I32(x) => Ok(x),
            _ => Err(FeatureError::InvalidI32),
        }
    }

    /// The word as an unsigned 32-bit integer; a negative word is refused.
    pub fn try_into_u32(&self) -> (r: Result<u32, FeatureError>)
        ensures
            match r {
                Ok(x) => x <= i32::MAX && self@ == Some(Word::I32(x as i32)),
                Err(e) => match self@ {
                    None => e == FeatureError::NoValue,
                    Some(w) => if w is I32 {
                        w->I32_0 < 0 && e == (FeatureError::InvalidU32 { value: w->I32_0 })
                    } else {
                        e == FeatureError::InvalidI32
                    },
                },
            },
    {
        let value = self.try_into_i32()?;
        if value >= 0 {
            Ok(value as u32)
        } else {
            Err(FeatureError::InvalidU32 { value })
        }
    }

    /// The word as a pointer-sized unsigned integer; a negative word is
    /// refused.
    pub fn try_into_usize(&self) -> (r: Result<usize, FeatureError>)
        ensures
            match r {
                Ok(x) => x <= i32::MAX && self@ == Some(Word::I32(x as i32)),
                Err(e) => match self@ {
                    None => e == FeatureError::NoValue,
                    Some(w) => if w is I32 {
                        w->I32_0 < 0 && e == (FeatureError::InvalidUsize { value: w->I32_0 })
                    } else {
                        e == FeatureError::InvalidI32
                    },
                },
            },
    {
        let value = self.try_into_i32()?;
        if value >= 0 {
            Ok(value as usize)
        } else {
            Err(FeatureError::InvalidUsize { value })
        }
    }

    /// The word as a boolean: 0 is false, 1 is true, anything else is
    /// refused.
    pub fn try_into_bool(&self) -> (r: Result<bool, FeatureError>)
        ensures
            match r {
                Ok(b) => self@ == Some(Word::I32(if b { 1i32 } else { 0i32 })),
                Err(e) => match self@ {
                    None => e == FeatureError::NoValue,
                    Some(w) => if w is I32 {
                        w->I32_0 != 0 && w->I32_0 != 1 && e == FeatureError::InvalidBool
                    } else {
                        e == FeatureError::InvalidI32
                    },
                },
            },
    {
        match self.try_into_i32()? {
            0i32 => Ok(false),
            1i32 => Ok(true),
            _ => Err(FeatureError::InvalidBool),
        }
    }
}

} // verus!
