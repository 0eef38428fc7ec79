//! Code-level table attributes: line numbers and local variables.

use vstd::prelude::*;

use crate::constant::{pool_get_str, ConstantPool};
use crate::error::Error;
use crate::reader::{be_u16_at, can_read, Reader};

verus! {

/// One line-number table entry: a code offset and its source line.
#[derive(Debug, Clone, Copy, PartialEq, Eq, Structural)]
pub struct LineNumber {
    pub start_pc: usize,
    pub line_number: usize,
}

/// Reads one line-number entry: two 16-bit fields.
pub open spec fn spec_read_line_number(s: Seq<u8>, pos: int) -> Result<(LineNumber, int), Error> {
    if can_read(s, pos, 4) {
        Ok(
            (
                LineNumber {
                    start_pc: be_u16_at(s, pos) as usize,
                    line_number: be_u16_at(s, pos + 2) as usize,
                },
                pos + 4,
            ),
        )
    } else {
        Err(Error::Truncation)
    }
}

/// Reads `n` line-number entries in sequence.
pub open spec fn spec_read_line_numbers(s: Seq<u8>, pos: int, n: int) -> Result<
    (Seq<LineNumber>, int),
    Error,
>
    decreases n,
{
    if n <= 0 {
        Ok((Seq::empty(), pos))
    } else {
        match spec_read_line_number(s, pos) {
            Err(e) => Err(e),
            Ok(v) => match spec_read_line_numbers(s, v.1, n - 1) {
                Err(e) => Err(e),
                Ok(w) => Ok((seq![v.0] + w.0, w.1)),
            },
        }
    }
}

/// Reads a line-number table: a 16-bit count, then that many entries.
pub open spec fn spec_read_line_number_table(s: Seq<u8>, pos: int) -> Result<
    (Seq<LineNumber>, int),
    Error,
> {
    if !can_read(s, pos, 2) {
        Err(Error::Truncation)
    } else {
        spec_read_line_numbers(s, pos + 2, be_u16_at(s, pos) as int)
    }
}

/// The line-number table attribute payload.
#[derive(Debug, Clone, PartialEq, Eq)]
pub struct LineNumberTableAttrInfo {
    entries: Vec<LineNumber>,
}

impl View for LineNumberTableAttrInfo {
    type V = Seq<LineNumber>;

    closed spec fn view(&self) -> Seq<LineNumber> {
        self.entries@
    }
}

impl LineNumberTableAttrInfo {
    #[verifier::loop_isolation(false)]
    pub fn read(r: &mut Reader, _pool: &ConstantPool) -> (res: Result<
        LineNumberTableAttrInfo,
        Error,
    >)
        requires
            old(r).wf(),
        ensures
            final(r).bytes() == old(r).bytes(),
            final(r).wf(),
            old(r).position() <= final(r).position(),
            match spec_read_line_number_table(old(r).bytes(), old(r).position()) {
                Ok(v) => res matches Ok(t) && t@ == v.0 && final(r).position() == v.1,
                Err(e) => res matches Err(e2) && e2 == e,
            },
    {
        let ghost s = old(r).bytes();
        let ghost pos0 = old(r).position();
        let n = match r.read_u16() {
            Ok(v) => v,
            Err(e) => { return Err(e); },
        };
        let mut entries: Vec<LineNumber> = Vec::new();
        let mut i: usize = 0;
        while i < n as usize
            invariant
                r.wf(),
                r.bytes() == s,
                i <= n as usize,
                pos0 + 2 <= r.position(),
                match spec_read_line_numbers(s, r.position(), n as int - i) {
                    Ok(v) => spec_read_line_numbers(s, pos0 + 2, n as int) == Ok::<_, Error>(
                        (entries@ + v.0, v.1),
                    ),
                    Err(e) => spec_read_line_numbers(s, pos0 + 2, n as int) == Err::<
                        (Seq<LineNumber>, int),
                        _,
                    >(e),
                },
            decreases n as int - i,
        {
            let ghost p_before = r.position();
            let entry = match LineNumber::read(r) {
                Ok(v) => v,
                Err(e) => { return Err(e); },
            };
            proof {
                match spec_read_line_numbers(s, r.position(), n as int - i - 1) {
                    Ok(v) => {
                        assert(spec_read_line_numbers(s, p_before, n as int - i) == Ok::<
                            _,
                            Error,
                        >((seq![entry] + v.0, v.1)));
                        assert(entries@.push(entry) + v.0 =~= entries@ + (seq![entry] + v.0));
                    },
                    Err(_) => {},
                }
            }
            entries.push(entry);
            i = i + 1;
        }
        proof {
            assert(entries@ + Seq::<LineNumber>::empty() =~= entries@);
        }
        Ok(LineNumberTableAttrInfo { entries })
    }

    /// The decoded entries, in file order.
    pub fn entries(&self) -> (r: &Vec<LineNumber>)
        ensures
            r@ == self@,
    {
        &self.entries
    }
}

impl LineNumber {
    pub fn read(r: &mut Reader) -> (res: Result<LineNumber, Error>)
        requires
            old(r).wf(),
        ensures
            final(r).bytes() == old(r).bytes(),
            final(r).wf(),
            old(r).position() <= final(r).position(),
            match spec_read_line_number(old(r).bytes(), old(r).position()) {
                Ok(v) => res matches Ok(c) && c == v.0 && final(r).position() == v.1,
                Err(e) => res matches Err(e2) && e2 == e,
            },
    {
        let start_pc = match r.read_u16() {
            Ok(v) => v,
            Err(e) => { return Err(e); },
        };
        let line_number = match r.read_u16() {
            Ok(v) => v,
            Err(e) => { return Err(e); },
        };
        Ok(LineNumber { start_pc: start_pc as usize, line_number: line_number as usize })
    }
}

/// One local-variable table entry: a code range, a name, a descriptor,
/// and a slot index.
#[derive(Debug, Clone, Copy, PartialEq, Eq, Structural)]
pub struct LocalVariable {
    pub start_pc: usize,
    pub length: usize,
    pub name_index: usize,
    pub desc_index: usize,
    pub index: usize,
}

/// Reads one local-variable entry: five 16-bit fields.
pub open spec fn spec_read_local_variable(s: Seq<u8>, pos: int) -> Result<
    (LocalVariable, int),
    Error,
> {
    if can_read(s, pos, 10) {
        Ok(
            (
                LocalVariable {
                    start_pc: be_u16_at(s, pos) as usize,
                    length: be_u16_at(s, pos + 2) as usize,
                    name_index: be_u16_at(s, pos + 4) as usize,
                    desc_index: be_u16_at(s, pos + 6) as usize,
                    index: be_u16_at(s, pos + 8) as usize,
                },
                pos + 10,
            ),
        )
    } else {
        Err(Error::Truncation)
    }
}

/// Reads `n` local-variable entries in sequence.
pub open spec fn spec_read_local_variables(s: Seq<u8>, pos: int, n: int) -> Result<
    (Seq<LocalVariable>, int),
    Error,
>
    decreases n,
{
    if n <= 0 {
        Ok((Seq::empty(), pos))
    } else {
        match spec_read_local_variable(s, pos) {
            Err(e) => Err(e),
            Ok(v) => match spec_read_local_variables(s, v.1, n - 1) {
                Err(e) => Err(e),
                Ok(w) => Ok((seq![v.0] + w.0, w.1)),
            },
        }
    }
}

/// Reads a local-variable table: a 16-bit count, then that many entries.
pub open spec fn spec_read_local_variable_table(s: Seq<u8>, pos: int) -> Result<
    (Seq<LocalVariable>, int),
    Error,
> {
    if !can_read(s, pos, 2) {
        Err(Error::Truncation)
    } else {
        spec_read_local_variables(s, pos + 2, be_u16_at(s, pos) as int)
    }
}

/// The local-variable table attribute payload.
#[derive(Debug, Clone, PartialEq, Eq)]
pub struct LocalVariableTableAttrInfo {
    entries: Vec<LocalVariable>,
}

impl View for LocalVariableTableAttrInfo {
    type V = Seq<LocalVariable>;

    closed spec fn view(&self) -> Seq<LocalVariable> {
        self.entries@
    }
}

impl LocalVariableTableAttrInfo {
    #[verifier::loop_isolation(false)]
    pub fn read(r: &mut Reader, _pool: &ConstantPool) -> (res: Result<
        LocalVariableTableAttrInfo,
        Error,
    >)
        requires
            old(r).wf(),
        ensures
            final(r).bytes() == old(r).bytes(),
            final(r).wf(),
            old(r).position() <= final(r).position(),
            match spec_read_local_variable_table(old(r).bytes(), old(r).position()) {
                Ok(v) => res matches Ok(t) && t@ == v.0 && final(r).position() == v.1,
                Err(e) => res matches Err(e2) && e2 == e,
            },
    {
        let ghost s = old(r).bytes();
        let ghost pos0 = old(r).position();
        let n = match r.read_u16() {
            Ok(v) => v,
            Err(e) => { return Err(e); },
        };
        let mut entries: Vec<LocalVariable> = Vec::new();
        let mut i: usize = 0;
        while i < n as usize
            invariant
                r.wf(),
                r.bytes() == s,
                i <= n as usize,
                pos0 + 2 <= r.position(),
                match spec_read_local_variables(s, r.position(), n as int - i) {
                    Ok(v) => spec_read_local_variables(s, pos0 + 2, n as int) == Ok::<_, Error>(
                        (entries@ + v.0, v.1),
                    ),
                    Err(e) => spec_read_local_variables(s, pos0 + 2, n as int) == Err::<
                        (Seq<LocalVariable>, int),
                        _,
                    >(e),
                },
            decreases n as int - i,
        {
            let ghost p_before = r.position();
            let entry = match LocalVariable::read(r) {
                Ok(v) => v,
                Err(e) => { return Err(e); },
            };
            proof {
                match spec_read_local_variables(s, r.position(), n as int - i - 1) {
                    Ok(v) => {
                        assert(spec_read_local_variables(s, p_before, n as int - i) == Ok::<
                            _,
                            Error,
                        >((seq![entry] + v.0, v.1)));
                        assert(entries@.push(entry) + v.0 =~= entries@ + (seq![entry] + v.0));
                    },
                    Err(_) => {},
                }
            }
            entries.push(entry);
            i = i + 1;
        }
        proof {
            assert(entries@ + Seq::<LocalVariable>::empty() =~= entries@);
        }
        Ok(LocalVariableTableAttrInfo { entries })
    }

    /// The decoded entries, in file order.
    pub fn entries(&self) -> (r: &Vec<LocalVariable>)
        ensures
            r@ == self@,
    {
        &self.entries
    }
}

impl LocalVariable {
    pub fn read(r: &mut Reader) -> (res: Result<LocalVariable, Error>)
        requires
            old(r).wf(),
        ensures
            final(r).bytes() == old(r).bytes(),
            final(r).wf(),
            old(r).position() <= final(r).position(),
            match spec_read_local_variable(old(r).bytes(), old(r).position()) {
                Ok(v) => res matches Ok(c) && c == v.0 && final(r).position() == v.1,
                Err(e) => res matches Err(e2) && e2 == e,
            },
    {
        let start_pc = match r.read_u16() {
            Ok(v) => v,
            Err(e) => { return Err(e); },
        };
        let length = match r.read_u16() {
            Ok(v) => v,
            Err(e) => { return Err(e); },
        };
        let name_index = match r.read_u16() {
            Ok(v) => v,
            Err(e) => { return Err(e); },
        };
        let desc_index = match r.read_u16() {
            Ok(v) => v,
            Err(e) => { return Err(e); },
        };
        let index = match r.read_u16() {
            Ok(v) => v,
            Err(e) => { return Err(e); },
        };
        Ok(
            LocalVariable {
                start_pc: start_pc as usize,
                length: length as usize,
                name_index: name_index as usize,
                desc_index: desc_index as usize,
                index: index as usize,
            },
        )
    }

    /// The variable's name, resolved through the pool.
    pub fn name<'a>(&self, constant_pool: &'a ConstantPool) -> (r: Option<&'a str>)
        ensures
            match r {
                Some(s) => pool_get_str(constant_pool@, self.name_index as int) == Some(s@),
                None => pool_get_str(constant_pool@, self.name_index as int) is None,
            },
    {
        constant_pool.get_str(self.name_index)
    }

    /// The variable's descriptor, resolved through the pool.
    pub fn desc<'a>(&self, constant_pool: &'a ConstantPool) -> (r: Option<&'a str>)
        ensures
            match r {
                Some(s) => pool_get_str(constant_pool@, self.desc_index as int) == Some(s@),
                None => pool_get_str(constant_pool@, self.desc_index as int) is None,
            },
    {
        constant_pool.get_str(self.desc_index)
    }
}

} // verus!
