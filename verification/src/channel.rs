//! The last-error slot behind the C-style polling API: one slot per execution
//! thread, holding at most one pending error. Every accessor returns a
//! harmless empty/default result when no error is set. The slot itself is
//! plain state; the process-wide thread-local cell and the C string handling
//! around it live outside the library.

use vstd::prelude::*;
use vstd::string::StringExecFns;

use crate::error::{polled_kind_of, BridgeError, CauseEntry, EngineErrorKind};
use crate::error::mj_err_kind;

verus! {

/// The views of a vector of strings, element by element.
pub open spec fn views_of(v: Seq<String>) -> Seq<Seq<char>> {
    Seq::new(v.len(), |i| v[i]@)
}

/// The first line of the diagnostic report.
pub open spec fn header_line(e: BridgeError) -> Seq<char> {
    "error: "@ + e.message@
}

/// The report lines one cause contributes: a blank separator, the cause
/// itself, and — when the cause is an engine error on a named template — the
/// cause's own debug rendering.
pub open spec fn cause_report_lines(c: CauseEntry) -> Seq<Seq<char>> {
    if c.named {
        seq![Seq::<char>::empty(), "caused by: "@ + c.message@, c.debug_info@]
    } else {
        seq![Seq::<char>::empty(), "caused by: "@ + c.message@]
    }
}

pub open spec fn causes_report_lines(cs: Seq<CauseEntry>) -> Seq<Seq<char>>
    decreases cs.len(),
{
    if cs.len() == 0 {
        Seq::empty()
    } else {
        causes_report_lines(cs.drop_last()) + cause_report_lines(cs.last())
    }
}

/// The whole diagnostic report for one error: the error line, its debug
/// rendering when it is attached to a named template, then the cause chain.
pub open spec fn report_lines_of(e: BridgeError) -> Seq<Seq<char>> {
    (if e.template_name is Some {
        seq![header_line(e), e.debug_info@]
    } else {
        seq![header_line(e)]
    }) + causes_report_lines(e.causes@)
}

/// The head of the debug-info string: the error's own debug rendering, kept
/// only when the error names a template and the rendering is non-empty.
pub open spec fn debug_head_text(e: BridgeError) -> Seq<char> {
    if e.template_name is Some && e.debug_info@.len() > 0 {
        e.debug_info@ + "\n"@
    } else {
        Seq::<char>::empty()
    }
}

/// The debug-info text one cause contributes: the cause itself and, for a
/// cause that is an engine error on a named template, that cause's own
/// debug rendering (when non-empty).
pub open spec fn cause_debug_text(c: CauseEntry) -> Seq<char> {
    "\ncaused by: "@ + c.message@ + "\n"@ + (if c.named && c.debug_info@.len() > 0 {
        c.debug_info@ + "\n"@
    } else {
        Seq::<char>::empty()
    })
}

pub open spec fn causes_debug_text(cs: Seq<CauseEntry>) -> Seq<char>
    decreases cs.len(),
{
    if cs.len() == 0 {
        Seq::<char>::empty()
    } else {
        causes_debug_text(cs.drop_last()) + cause_debug_text(cs.last())
    }
}

/// The whole debug-info string for one error.
pub open spec fn debug_info_text(e: BridgeError) -> Seq<char> {
    debug_head_text(e) + causes_debug_text(e.causes@)
}

/// One thread's last-error slot: at most one pending error, set on failure,
/// cleared explicitly or overwritten by the next failure.
pub struct LastErrorSlot {
    pub current: Option<BridgeError>,
}

impl LastErrorSlot {
    /// An empty slot: nothing pending.
    pub fn new() -> (r: LastErrorSlot)
        ensures
            r.current is None,
    {
        LastErrorSlot { current: None }
    }

    /// Whether an error is currently pending.
    pub fn is_set(&self) -> (r: bool)
        ensures
            r == (self.current is Some),
    {
        self.current.is_some()
    }

    /// Clears the pending error, if any.
    pub fn clear(&mut self)
        ensures
            final(self).current is None,
    {
        self.current = None;
    }

    /// Records a failure; an earlier pending error is overwritten
    /// (last-write-wins, never a queue).
    pub fn set(&mut self, err: BridgeError)
        ensures
            final(self).current == Some(err),
    {
        self.current = Some(err);
    }

    /// The pending error's detail string, if an error is set and it has one.
    pub fn get_detail(&self) -> (r: Option<String>)
        ensures
            r == (match self.current {
                Some(e) => e.detail,
                None => None::<String>,
            }),
    {
        match &self.current {
            Some(e) => match &e.detail {
                Some(d) => Some(d.clone()),
                None => None,
            },
            None => None,
        }
    }

    /// The name of the template the pending error points at, if any.
    pub fn get_template_name(&self) -> (r: Option<String>)
        ensures
            r == (match self.current {
                Some(e) => e.template_name,
                None => None::<String>,
            }),
    {
        match &self.current {
            Some(e) => match &e.template_name {
                Some(n) => Some(n.clone()),
                None => None,
            },
            None => None,
        }
    }

    /// The pending error's line number; 0 when no error is set or the error
    /// carries no line.
    pub fn get_line(&self) -> (r: u32)
        ensures
            r == (match self.current {
                Some(e) => match e.line {
                    Some(l) => l,
                    None => 0u32,
                },
                None => 0u32,
            }),
    {
        match &self.current {
            Some(e) => match e.line {
                Some(l) => l,
                None => 0,
            },
            None => 0,
        }
    }

    /// The pending error's kind, mapped into the fixed discriminant set;
    /// `Unknown` when no error is set or its kind lies outside the set.
    pub fn get_kind(&self) -> (r: mj_err_kind)
        ensures
            r == polled_kind_of(
                match self.current {
                    Some(e) => Some(e.kind),
                    None => None::<EngineErrorKind>,
                },
            ),
    {
        match &self.current {
            Some(e) => match mj_err_kind::try_from(e.kind) {
                Ok(k) => k,
                Err(_) => mj_err_kind::MJ_ERR_KIND_UNKNOWN,
            },
            None => mj_err_kind::MJ_ERR_KIND_UNKNOWN,
        }
    }

    /// The pending error's debug info as one plain string: the error's own
    /// debug rendering when it names a template, then the cause chain.
    pub fn get_debug_info(&self) -> (r: Option<String>)
        ensures
            r is Some <==> self.current is Some,
            r matches Some(s) ==> self.current matches Some(e) && s@ == debug_info_text(e),
    {
        match &self.current {
            None => None,
            Some(e) => {
                let mut info = String::new();
                if e.template_name.is_some() {
                    if !e.debug_info.as_str().is_empty() {
                        info.append(e.debug_info.as_str());
                        info.append("\n");
                    }
                }
                proof {
                    assert(info@ =~= debug_head_text(*e) + causes_debug_text(e.causes@.take(0)));
                }
                let mut i: usize = 0;
                while i < e.causes.len()
                    invariant
                        i <= e.causes.len(),
                        info@ =~= debug_head_text(*e) + causes_debug_text(
                            e.causes@.take(i as int),
                        ),
                    decreases e.causes.len() - i,
                {
                    let c = &e.causes[i];
                    info.append("\ncaused by: ");
                    info.append(c.message.as_str());
                    info.append("\n");
                    if c.named {
                        if !c.debug_info.as_str().is_empty() {
                            info.append(c.debug_info.as_str());
                            info.append("\n");
                        }
                    }
                    proof {
                        let cs = e.causes@;
                        assert(cs.take(i + 1).drop_last() =~= cs.take(i as int));
                        assert(cs.take(i + 1).last() == cs[i as int]);
                        assert(info@ =~= debug_head_text(*e) + causes_debug_text(cs.take(i + 1)));
                    }
                    i = i + 1;
                }
                proof {
                    assert(e.causes@.take(e.causes@.len() as int) =~= e.causes@);
                }
                Some(info)
            },
        }
    }

    /// The diagnostic report as lines of text, ready to be written to a
    /// diagnostic stream; `None` when no error is pending.
    pub fn render_report(&self) -> (r: Option<Vec<String>>)
        ensures
            r is Some <==> self.current is Some,
            r matches Some(lines) ==> self.current matches Some(e) && views_of(lines@)
                == report_lines_of(e),
    {
        match &self.current {
            None => None,
            Some(e) => {
                let mut lines: Vec<String> = Vec::new();
                let mut first = String::from_str("error: ");
                first.append(e.message.as_str());
                lines.push(first);
                if e.template_name.is_some() {
                    lines.push(e.debug_info.clone());
                }
                let ghost pre: Seq<Seq<char>> = if e.template_name is Some {
                    seq![header_line(*e), e.debug_info@]
                } else {
                    seq![header_line(*e)]
                };
                proof {
                    assert(views_of(lines@) =~~= pre + causes_report_lines(e.causes@.take(0)));
                }
                let mut i: usize = 0;
                while i < e.causes.len()
                    invariant
                        i <= e.causes.len(),
                        views_of(lines@) =~~= pre + causes_report_lines(e.causes@.take(i as int)),
                        pre =~= (if e.template_name is Some {
                            seq![header_line(*e), e.debug_info@]
                        } else {
                            seq![header_line(*e)]
                        }),
                    decreases e.causes.len() - i,
                {
                    let c = &e.causes[i];
                    lines.push(String::new());
                    let mut cause_line = String::from_str("caused by: ");
                    cause_line.append(c.message.as_str());
                    lines.push(cause_line);
                    if c.named {
                        lines.push(c.debug_info.clone());
                    }
                    proof {
                        let cs = e.causes@;
                        assert(cs.take(i + 1).drop_last() =~= cs.take(i as int));
                        assert(cs.take(i + 1).last() == cs[i as int]);
                        assert(causes_report_lines(cs.take(i + 1)) == causes_report_lines(
                            cs.take(i as int),
                        ) + cause_report_lines(cs[i as int]));
                        assert(views_of(lines@) =~~= (pre + causes_report_lines(cs.take(i as int)))
                            + cause_report_lines(cs[i as int]));
                        assert(views_of(lines@) =~~= pre + causes_report_lines(cs.take(i + 1)));
                    }
                    i = i + 1;
                }
                proof {
                    assert(e.causes@.take(e.causes@.len() as int) =~= e.causes@);
                    assert(views_of(lines@) =~~= report_lines_of(*e));
                }
                Some(lines)
            },
        }
    }
}

} // verus!
