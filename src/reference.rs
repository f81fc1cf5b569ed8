//! References to labelled elements, and their supplements.
use vstd::prelude::*;
use vstd::string::*;

use crate::diag::{SourceDiagnostic, Span};

verus! {

/// A label that an element of the document carries.
#[derive(Debug, PartialEq)]
pub struct Label {
    pub name: String,
}

/// Where an element stands in the laid-out document.
#[derive(Clone, Copy, Debug, PartialEq, Eq, Structural)]
pub struct Location {
    pub id: u64,
}

/// Document content, as its text.
#[derive(Debug, PartialEq)]
pub struct Content {
    pub text: String,
}

/// A user-defined function, by name.
#[derive(Debug, PartialEq)]
pub struct Func {
    pub name: String,
}

/// A setting that is either chosen automatically or given.
#[derive(Debug, PartialEq)]
pub enum Smart<T> {
    Auto,
    Custom(T),
}

/// Additional content for a reference.
#[derive(Debug, PartialEq)]
pub enum Supplement {
    Content(Content),
    Func(Func),
}

/// A citation of a bibliography entry.
#[derive(Debug, PartialEq)]
pub struct CiteElem {
    pub key: Label,
    pub span: Span,
    pub location: Option<Location>,
    pub supplement: Option<Content>,
}

/// A reference to a label or bibliography entry.
#[derive(Debug, PartialEq)]
pub struct RefElem {
    /// The target label that should be referenced.
    pub target: Label,
    /// A supplement for the reference.
    pub supplement: Smart<Option<Supplement>>,
    /// A synthesized citation.
    pub citation: Option<CiteElem>,
    /// The referenced element.
    pub element: Option<Content>,
    pub span: Span,
    pub location: Option<Location>,
}

fn copy_content(c: &Content) -> (r: Content)
    ensures
        r == *c,
{
    Content { text: c.text.clone() }
}

/// The supplement that a citation made from a reference carries: given
/// content passes over, anything else is dropped.
pub open spec fn citation_supplement(s: Smart<Option<Supplement>>) -> Option<Content> {
    match s {
        Smart::Custom(Some(Supplement::Content(c))) => Some(c),
        _ => None,
    }
}

/// The citation that a reference turns into.
pub open spec fn citation_of(r: RefElem) -> CiteElem {
    CiteElem {
        key: r.target,
        span: r.span,
        location: r.location,
        supplement: citation_supplement(r.supplement),
    }
}

/// What the looked-up target of a reference is.
#[derive(Debug)]
pub struct Referent {
    /// The name of the element's function (`heading`, `figure`, ...).
    pub name: String,
    /// Whether it is a footnote.
    pub footnote: bool,
    /// Whether it can be referenced.
    pub refable: bool,
    /// Whether it could be put into a figure.
    pub figurable: bool,
    /// Whether it is numbered.
    pub numbered: bool,
    /// Whether it is a math equation.
    pub equation: bool,
}

/// How a reference is shown.
#[derive(Clone, Copy, Debug, PartialEq, Eq, Structural)]
pub enum RefShow {
    /// As a citation of a bibliography entry.
    Citation,
    /// As a reference to a footnote.
    Footnote,
    /// As the target's number, after its supplement.
    Numbered,
}

/// How a reference is shown, or the message and hints of the error:
/// `in_bibliography` tells whether the bibliography has the label, `found`
/// what the document has under it (or the lookup's error message).
pub open spec fn show_outcome(in_bibliography: bool, found: Result<Referent, String>) -> Result<
    RefShow,
    (Seq<char>, Seq<Seq<char>>),
> {
    if in_bibliography {
        if found is Ok {
            Err(("label occurs in the document and its bibliography"@, seq![]))
        } else {
            Ok(RefShow::Citation)
        }
    } else {
        match found {
            Err(m) => Err((m@, seq![])),
            Ok(t) => if t.footnote {
                Ok(RefShow::Footnote)
            } else if !t.refable {
                if t.figurable {
                    Err(
                        (
                            "cannot reference "@ + t.name@ + " directly, try putting it into a figure"@,
                            seq![],
                        ),
                    )
                } else {
                    Err(("cannot reference "@ + t.name@, seq![]))
                }
            } else if !t.numbered {
                Err(
                    (
                        "cannot reference "@ + t.name@ + " without numbering"@,
                        seq![
                            "you can enable "@ + t.name@ + " numbering with `#set "@ + (if t.equation {
                                "math.equation"@
                            } else {
                                t.name@
                            }) + "(numbering: \"1.\")`"@,
                        ],
                    ),
                )
            } else {
                Ok(RefShow::Numbered)
            },
        }
    }
}

/// The text of a numbered reference: the supplement and the number, joined
/// by a non-breaking space, or the number alone where the supplement is empty.
pub open spec fn numbered_text(supplement: Seq<char>, numbers: Seq<char>) -> Seq<char> {
    if supplement.len() == 0 {
        numbers
    } else {
        supplement + "\u{a0}"@ + numbers
    }
}

/// Put the supplement before the number of a numbered reference.
pub fn numbered_content(supplement: Content, numbers: Content) -> (r: Content)
    ensures
        r.text@ == numbered_text(supplement.text@, numbers.text@),
{
    if supplement.text.unicode_len() == 0 {
        return numbers;
    }
    let mut text = supplement.text;
    text.append("\u{a0}");
    text.append(numbers.text.as_str());
    Content { text }
}

impl RefElem {
    /// Fill in the synthesized fields: the citation the reference turns into,
    /// and, where the bibliography does not have the label, the element the
    /// document has under it (`found`, if the lookup succeeded).
    pub fn synthesize(&mut self, in_bibliography: bool, found: Option<Content>)
        requires
            old(self).location is Some,
        ensures
            final(self).citation == Some(citation_of(*old(self))),
            final(self).element == (if in_bibliography {
                None
            } else {
                found
            }),
            final(self).target == old(self).target,
            final(self).supplement == old(self).supplement,
            final(self).span == old(self).span,
            final(self).location == old(self).location,
    {
        let citation = self.to_citation();
        self.citation = Some(citation);
        self.element = None;
        if !in_bibliography {
            self.element = found;
        }
    }

    /// Decide how the reference is shown: `in_bibliography` tells whether
    /// the bibliography has the target label, `found` what the document has
    /// under it, or the lookup's error message.
    pub fn show_kind(&self, in_bibliography: bool, found: &Result<Referent, String>) -> (r: Result<
        RefShow,
        SourceDiagnostic,
    >)
        ensures
            match show_outcome(in_bibliography, *found) {
                Ok(k) => r == Ok::<RefShow, SourceDiagnostic>(k),
                Err((m, hs)) => r matches Err(e) && e.span == self.span && e.message@ == m
                    && e.hints@.len() == hs.len() && forall|i: int|
                    0 <= i < hs.len() ==> #[trigger] e.hints@[i]@ == hs[i],
            },
    {
        if in_bibliography {
            if found.is_ok() {
                return Err(
                    SourceDiagnostic::error(
                        self.span,
                        "label occurs in the document and its bibliography",
                    ),
                );
            }
            return Ok(RefShow::Citation);
        }
        let t = match found {
            Err(m) => {
                return Err(SourceDiagnostic::with_message(self.span, m.clone()));
            },
            Ok(t) => t,
        };
        if t.footnote {
            return Ok(RefShow::Footnote);
        }
        if !t.refable {
            let mut m = String::from_str("cannot reference ");
            m.append(t.name.as_str());
            if t.figurable {
                m.append(" directly, try putting it into a figure");
            }
            return Err(SourceDiagnostic::with_message(self.span, m));
        }
        if !t.numbered {
            let mut m = String::from_str("cannot reference ");
            m.append(t.name.as_str());
            m.append(" without numbering");
            let mut h = String::from_str("you can enable ");
            h.append(t.name.as_str());
            h.append(" numbering with `#set ");
            if t.equation {
                h.append("math.equation");
            } else {
                h.append(t.name.as_str());
            }
            h.append("(numbering: \"1.\")`");
            let mut e = SourceDiagnostic::with_message(self.span, m);
            e.hints.push(h);
            proof {
                assert(e.hints@[0]@ == show_outcome(in_bibliography, *found)->Err_0.1[0]);
            }
            return Err(e);
        }
        Ok(RefShow::Numbered)
    }

    /// The supplement of a numbered reference: the target's own where none
    /// is set (`default`), nothing where it is turned off, else the given one,
    /// resolved through `call` where it is a function.
    pub fn supplement_content<F: FnOnce(&Func) -> Result<Content, SourceDiagnostic>>(
        &self,
        default: Content,
        call: F,
    ) -> (r: Result<Content, SourceDiagnostic>)
        requires
            self.supplement matches Smart::Custom(Some(Supplement::Func(f))) ==> call.requires(
                (&f,),
            ),
        ensures
            self.supplement is Auto ==> r == Ok::<Content, SourceDiagnostic>(default),
            self.supplement matches Smart::Custom(None) ==> r matches Ok(c) && c.text@.len() == 0,
            self.supplement matches Smart::Custom(Some(Supplement::Content(c))) ==> r == Ok::<
                Content,
                SourceDiagnostic,
            >(c),
            self.supplement matches Smart::Custom(Some(Supplement::Func(f))) ==> call.ensures(
                (&f,),
                r,
            ),
    {
        match &self.supplement {
            Smart::Auto => Ok(default),
            Smart::Custom(None) => Ok(Content { text: String::new() }),
            Smart::Custom(Some(s)) => s.resolve(call),
        }
    }

    /// Turn the reference into a citation of its target, at the same span and
    /// location.
    pub fn to_citation(&self) -> (r: CiteElem)
        requires
            self.location is Some,
        ensures
            r == citation_of(*self),
    {
        let supplement = match &self.supplement {
            Smart::Custom(Some(Supplement::Content(content))) => Some(copy_content(content)),
            _ => None,
        };
        CiteElem {
            key: Label { name: self.target.name.clone() },
            span: self.span,
            location: Some(self.location.unwrap()),
            supplement,
        }
    }
}

impl Supplement {
    /// Tries to resolve the supplement into its content: given content as it
    /// is, a function through `call`, which calls it.
    pub fn resolve<F: FnOnce(&Func) -> Result<Content, SourceDiagnostic>>(&self, call: F) -> (r:
        Result<Content, SourceDiagnostic>)
        requires
            self matches Supplement::Func(f) ==> call.requires((f,)),
        ensures
            self matches Supplement::Content(c) ==> r == Ok::<Content, SourceDiagnostic>(*c),
            self matches Supplement::Func(f) ==> call.ensures((f,), r),
    {
        match self {
            Supplement::Content(content) => Ok(copy_content(content)),
            Supplement::Func(func) => call(func),
        }
    }
}

} // verus!
