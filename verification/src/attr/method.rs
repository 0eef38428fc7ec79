//! Method-level attributes: the code body and the declared-exceptions
//! table. A code body nests a further attribute list, decoded through
//! the same attribute framework.

use vstd::prelude::*;

use crate::attr::{attrs_view, read_attrs, spec_read_attrs, Attr, SpecAttr};
use crate::constant::{pool_get_class_info, ConstantClassInfo, ConstantPool, SpecEntry};
use crate::error::Error;
use crate::reader::{be_u16_at, be_u32_at, can_read, Reader};

verus! {

/// One exception-table row of a code body; a catch-type index of zero
/// catches everything.
#[derive(Debug, Clone, Copy, PartialEq, Eq, Structural)]
pub struct ExceptionHandler {
    pub start_pc: usize,
    pub end_pc: usize,
    pub handler_pc: usize,
    pub catch_type: usize,
}

/// Reads one exception-table row: four 16-bit fields.
pub open spec fn spec_read_exception_handler(s: Seq<u8>, pos: int) -> Result<
    (ExceptionHandler, int),
    Error,
> {
    if can_read(s, pos, 8) {
        Ok(
            (
                ExceptionHandler {
                    start_pc: be_u16_at(s, pos) as usize,
                    end_pc: be_u16_at(s, pos + 2) as usize,
                    handler_pc: be_u16_at(s, pos + 4) as usize,
                    catch_type: be_u16_at(s, pos + 6) as usize,
                },
                pos + 8,
            ),
        )
    } else {
        Err(Error::Truncation)
    }
}

/// Reads `n` exception-table rows in sequence.
pub open spec fn spec_read_exception_handlers(s: Seq<u8>, pos: int, n: int) -> Result<
    (Seq<ExceptionHandler>, int),
    Error,
>
    decreases n,
{
    if n <= 0 {
        Ok((Seq::empty(), pos))
    } else {
        match spec_read_exception_handler(s, pos) {
            Err(e) => Err(e),
            Ok(v) => match spec_read_exception_handlers(s, v.1, n - 1) {
                Err(e) => Err(e),
                Ok(w) => Ok((seq![v.0] + w.0, w.1)),
            },
        }
    }
}

impl ExceptionHandler {
    pub fn read(r: &mut Reader) -> (res: Result<ExceptionHandler, Error>)
        requires
            old(r).wf(),
        ensures
            final(r).bytes() == old(r).bytes(),
            final(r).wf(),
            old(r).position() <= final(r).position(),
            match spec_read_exception_handler(old(r).bytes(), old(r).position()) {
                Ok(v) => res matches Ok(c) && c == v.0 && final(r).position() == v.1,
                Err(e) => res matches Err(e2) && e2 == e,
            },
    {
        let start_pc = match r.read_u16() {
            Ok(v) => v,
            Err(e) => { return Err(e); },
        };
        let end_pc = match r.read_u16() {
            Ok(v) => v,
            Err(e) => { return Err(e); },
        };
        let handler_pc = match r.read_u16() {
            Ok(v) => v,
            Err(e) => { return Err(e); },
        };
        let catch_type = match r.read_u16() {
            Ok(v) => v,
            Err(e) => { return Err(e); },
        };
        Ok(
            ExceptionHandler {
                start_pc: start_pc as usize,
                end_pc: end_pc as usize,
                handler_pc: handler_pc as usize,
                catch_type: catch_type as usize,
            },
        )
    }

    /// The caught class; absent when the index is zero, which catches
    /// everything.
    pub fn catch_type<'a>(&self, pool: &'a ConstantPool) -> (r: Option<&'a ConstantClassInfo>)
        ensures
            match r {
                Some(c) => self.catch_type != 0 && pool_get_class_info(
                    pool@,
                    self.catch_type as int,
                ) == Some(*c),
                None => self.catch_type == 0 || pool_get_class_info(
                    pool@,
                    self.catch_type as int,
                ) is None,
            },
    {
        if self.catch_type != 0 {
            pool.get_class_info(self.catch_type)
        } else {
            None
        }
    }
}

/// A code body: operand-stack and local sizes, the raw bytecode (never
/// decoded into instructions here), the exception table, and a nested
/// attribute list.
#[derive(Debug, PartialEq, Eq)]
pub struct CodeAttrInfo {
    pub max_stack: usize,
    pub max_locals: usize,
    pub code: Vec<u8>,
    pub exception_handlers: Vec<ExceptionHandler>,
    pub attrs: Vec<Attr>,
}

/// The mathematical model of a code body.
pub struct SpecCodeAttrInfo {
    pub max_stack: usize,
    pub max_locals: usize,
    pub code: Seq<u8>,
    pub exception_handlers: Seq<ExceptionHandler>,
    pub attrs: Seq<SpecAttr>,
}

pub open spec fn code_attr_view(c: CodeAttrInfo) -> SpecCodeAttrInfo
    decreases c,
{
    SpecCodeAttrInfo {
        max_stack: c.max_stack,
        max_locals: c.max_locals,
        code: c.code@,
        exception_handlers: c.exception_handlers@,
        attrs: attrs_view(c.attrs@),
    }
}

impl View for CodeAttrInfo {
    type V = SpecCodeAttrInfo;

    open spec fn view(&self) -> SpecCodeAttrInfo {
        code_attr_view(*self)
    }
}

/// Reads a code-body payload: sizes, the bytecode run, the exception
/// table, then the nested attribute list.
pub open spec fn spec_read_code(s: Seq<u8>, pos: int, pool: Seq<SpecEntry>) -> Result<
    (SpecCodeAttrInfo, int),
    Error,
>
    decreases s.len() - pos, 2int,
{
    if !can_read(s, pos, 8) {
        Err(Error::Truncation)
    } else {
        let code_size = be_u32_at(s, pos + 4) as int;
        if !can_read(s, pos + 8, code_size) {
            Err(Error::Truncation)
        } else {
            let p1 = pos + 8 + code_size;
            if !can_read(s, p1, 2) {
                Err(Error::Truncation)
            } else {
                match spec_read_exception_handlers(s, p1 + 2, be_u16_at(s, p1) as int) {
                    Err(e) => Err(e),
                    Ok(hs) => {
                        if hs.1 <= pos || s.len() < hs.1 {
                            Err(Error::Truncation)
                        } else if !can_read(s, hs.1, 2) {
                            Err(Error::Truncation)
                        } else {
                            match spec_read_attrs(s, hs.1 + 2, be_u16_at(s, hs.1) as int, pool) {
                                Err(e) => Err(e),
                                Ok(at) => Ok(
                                    (
                                        SpecCodeAttrInfo {
                                            max_stack: be_u16_at(s, pos) as usize,
                                            max_locals: be_u16_at(s, pos + 2) as usize,
                                            code: s.subrange(pos + 8, pos + 8 + code_size),
                                            exception_handlers: hs.0,
                                            attrs: at.0,
                                        },
                                        at.1,
                                    ),
                                ),
                            }
                        }
                    },
                }
            }
        }
    }
}

impl CodeAttrInfo {
    #[verifier::loop_isolation(false)]
    pub fn read(r: &mut Reader, constant_pool: &ConstantPool) -> (res: Result<
        CodeAttrInfo,
        Error,
    >)
        requires
            old(r).wf(),
        ensures
            final(r).bytes() == old(r).bytes(),
            final(r).wf(),
            old(r).position() <= final(r).position(),
            match spec_read_code(old(r).bytes(), old(r).position(), constant_pool@) {
                Ok(v) => res matches Ok(c) && c@ == v.0 && final(r).position() == v.1,
                Err(e) => res matches Err(e2) && e2 == e,
            },
        decreases old(r).bytes().len() - old(r).position(), 2int,
    {
        let ghost s = old(r).bytes();
        let max_stack = match r.read_u16() {
            Ok(v) => v,
            Err(e) => { return Err(e); },
        };
        let max_locals = match r.read_u16() {
            Ok(v) => v,
            Err(e) => { return Err(e); },
        };
        let code_size = match r.read_u32() {
            Ok(v) => v,
            Err(e) => { return Err(e); },
        };
        let code = match r.read_exact(code_size as usize) {
            Ok(v) => v,
            Err(e) => { return Err(e); },
        };
        let ghost p1 = r.position();
        let handlers_count = match r.read_u16() {
            Ok(v) => v,
            Err(e) => { return Err(e); },
        };
        let mut exception_handlers: Vec<ExceptionHandler> = Vec::new();
        let mut i: usize = 0;
        while i < handlers_count as usize
            invariant
                r.wf(),
                r.bytes() == s,
                i <= handlers_count as usize,
                p1 + 2 <= r.position(),
                match spec_read_exception_handlers(s, r.position(), handlers_count as int - i) {
                    Ok(v) => spec_read_exception_handlers(s, p1 + 2, handlers_count as int)
                        == Ok::<_, Error>((exception_handlers@ + v.0, v.1)),
                    Err(e) => spec_read_exception_handlers(s, p1 + 2, handlers_count as int)
                        == Err::<(Seq<ExceptionHandler>, int), _>(e),
                },
            decreases handlers_count as int - i,
        {
            let ghost p_before = r.position();
            let handler = match ExceptionHandler::read(r) {
                Ok(v) => v,
                Err(e) => { return Err(e); },
            };
            proof {
                match spec_read_exception_handlers(s, r.position(), handlers_count as int - i
                    - 1) {
                    Ok(v) => {
                        assert(spec_read_exception_handlers(s, p_before, handlers_count as int - i)
                            == Ok::<_, Error>((seq![handler] + v.0, v.1)));
                        assert(exception_handlers@.push(handler) + v.0 =~= exception_handlers@ + (
                        seq![handler] + v.0));
                    },
                    Err(_) => {},
                }
            }
            exception_handlers.push(handler);
            i = i + 1;
        }
        proof {
            assert(exception_handlers@ + Seq::<ExceptionHandler>::empty()
                =~= exception_handlers@);
        }
        let attrs_count = match r.read_u16() {
            Ok(v) => v,
            Err(e) => { return Err(e); },
        };
        let mut attrs: Vec<Attr> = Vec::new();
        match read_attrs(r, attrs_count, constant_pool, &mut attrs) {
            Ok(()) => {
                proof {
                    assert(attrs_view(Seq::<Attr>::empty()) + attrs_view(attrs@)
                        =~= attrs_view(attrs@));
                }
                Ok(
                    CodeAttrInfo {
                        max_stack: max_stack as usize,
                        max_locals: max_locals as usize,
                        code,
                        exception_handlers,
                        attrs,
                    },
                )
            },
            Err(e) => Err(e),
        }
    }
}

/// Reads a declared-exceptions payload: a 16-bit count, then that many
/// class indices.
pub open spec fn spec_read_exception_indices(s: Seq<u8>, pos: int, n: int) -> Result<
    (Seq<usize>, int),
    Error,
>
    decreases n,
{
    if n <= 0 {
        Ok((Seq::empty(), pos))
    } else {
        if !can_read(s, pos, 2) {
            Err(Error::Truncation)
        } else {
            match spec_read_exception_indices(s, pos + 2, n - 1) {
                Err(e) => Err(e),
                Ok(w) => Ok((seq![be_u16_at(s, pos) as usize] + w.0, w.1)),
            }
        }
    }
}

/// Reads an exceptions attribute payload.
pub open spec fn spec_read_exceptions(s: Seq<u8>, pos: int) -> Result<(Seq<usize>, int), Error> {
    if !can_read(s, pos, 2) {
        Err(Error::Truncation)
    } else {
        spec_read_exception_indices(s, pos + 2, be_u16_at(s, pos) as int)
    }
}

/// The declared-exceptions attribute payload: class indices into the
/// pool.
#[derive(Debug, Clone, PartialEq, Eq)]
pub struct ExceptionsAttrInfo {
    table: Vec<usize>,
}

impl View for ExceptionsAttrInfo {
    type V = Seq<usize>;

    closed spec fn view(&self) -> Seq<usize> {
        self.table@
    }
}

impl ExceptionsAttrInfo {
    #[verifier::loop_isolation(false)]
    pub fn read(r: &mut Reader, _pool: &ConstantPool) -> (res: Result<ExceptionsAttrInfo, Error>)
        requires
            old(r).wf(),
        ensures
            final(r).bytes() == old(r).bytes(),
            final(r).wf(),
            old(r).position() <= final(r).position(),
            match spec_read_exceptions(old(r).bytes(), old(r).position()) {
                Ok(v) => res matches Ok(t) && t@ == v.0 && final(r).position() == v.1,
                Err(e) => res matches Err(e2) && e2 == e,
            },
    {
        let ghost s = old(r).bytes();
        let ghost pos0 = old(r).position();
        let n = match r.read_u16() {
            Ok(v) => v,
            Err(e) => { return Err(e); },
        };
        let mut table: Vec<usize> = Vec::new();
        let mut i: usize = 0;
        while i < n as usize
            invariant
                r.wf(),
                r.bytes() == s,
                i <= n as usize,
                pos0 + 2 <= r.position(),
                match spec_read_exception_indices(s, r.position(), n as int - i) {
                    Ok(v) => spec_read_exception_indices(s, pos0 + 2, n as int) == Ok::<_, Error>(
                        (table@ + v.0, v.1),
                    ),
                    Err(e) => spec_read_exception_indices(s, pos0 + 2, n as int) == Err::<
                        (Seq<usize>, int),
                        _,
                    >(e),
                },
            decreases n as int - i,
        {
            let ghost p_before = r.position();
            let index = match r.read_u16() {
                Ok(v) => v,
                Err(e) => { return Err(e); },
            };
            proof {
                match spec_read_exception_indices(s, r.position(), n as int - i - 1) {
                    Ok(v) => {
                        assert(spec_read_exception_indices(s, p_before, n as int - i) == Ok::<
                            _,
                            Error,
                        >((seq![index as usize] + v.0, v.1)));
                        assert(table@.push(index as usize) + v.0 =~= table@ + (
                        seq![index as usize] + v.0));
                    },
                    Err(_) => {},
                }
            }
            table.push(index as usize);
            i = i + 1;
        }
        proof {
            assert(table@ + Seq::<usize>::empty() =~= table@);
        }
        Ok(ExceptionsAttrInfo { table })
    }

    /// The declared exceptions, resolved through the pool: one entry per
    /// table row, absent where the index does not hold a class.
    pub fn table<'a, 'b>(&'a self, pool: &'b ConstantPool) -> (r: Vec<
        Option<&'b ConstantClassInfo>,
    >)
        ensures
            r@.len() == self@.len(),
            forall|i: int|
                0 <= i < r@.len() ==> match #[trigger] r@[i] {
                    Some(c) => pool_get_class_info(pool@, self@[i] as int) == Some(*c),
                    None => pool_get_class_info(pool@, self@[i] as int) is None,
                },
    {
        let mut out: Vec<Option<&'b ConstantClassInfo>> = Vec::new();
        let mut i: usize = 0;
        while i < self.table.len()
            invariant
                i <= self.table@.len(),
                self@ == self.table@,
                resolved_rows_agree(out@, self@, pool@, i as int),
            decreases self.table@.len() - i,
        {
            out.push(pool.get_class_info(self.table[i]));
            i = i + 1;
        }
        out
    }
}

/// The rows of a resolved exceptions table agree with the pool, row by
/// row.
pub open spec fn resolved_rows_agree(
    out: Seq<Option<&ConstantClassInfo>>,
    table: Seq<usize>,
    pool: Seq<SpecEntry>,
    n: int,
) -> bool {
    out.len() == n && n <= table.len() && forall|i: int|
        0 <= i < n ==> match #[trigger] out[i] {
            Some(c) => pool_get_class_info(pool, table[i] as int) == Some(*c),
            None => pool_get_class_info(pool, table[i] as int) is None,
        }
}

} // verus!
