//! Validity checking for weak language items.
//!
//! A language item is a function or type that the compiler refers to by its
//! role. A *weak* one may be declared in one crate and defined in another;
//! whether each one that is needed has a definition can be told only when
//! everything is linked.

use vstd::prelude::*;

verus! {

/// A language item.
#[derive(Clone, Copy, Debug, PartialEq, Eq, Structural)]
pub enum LangItem {
    /// The function that panics end in.
    PanicImpl,
    /// The routine that unwinding calls for each frame.
    EhPersonality,
    /// The type information that catching an exception needs.
    EhCatchTypeinfo,
    /// Any other item, by its number; none of them is weak.
    Other(u32),
}

impl LangItem {
    pub open spec fn is_weak_spec(self) -> bool {
        self is PanicImpl || self is EhPersonality || self is EhCatchTypeinfo
    }

    /// Whether the item may be declared in one crate and defined in another.
    pub fn is_weak(self) -> (b: bool)
        ensures
            b == self.is_weak_spec(),
    {
        match self {
            LangItem::PanicImpl | LangItem::EhPersonality | LangItem::EhCatchTypeinfo => true,
            LangItem::Other(_) => false,
        }
    }
}

/// The weak language items, in the order in which they are checked.
pub open spec fn weak_lang_items_spec() -> Seq<LangItem> {
    seq![LangItem::PanicImpl, LangItem::EhPersonality, LangItem::EhCatchTypeinfo]
}

/// The weak language items, in the order in which they are checked.
pub fn weak_lang_items() -> (items: Vec<LangItem>)
    ensures
        items@ == weak_lang_items_spec(),
{
    vec![LangItem::PanicImpl, LangItem::EhPersonality, LangItem::EhCatchTypeinfo]
}

/// What happens when a panic is raised.
#[derive(Clone, Copy, Debug, PartialEq, Eq, Structural)]
pub enum PanicStrategy {
    Unwind,
    Abort,
}

pub open spec fn required_spec(strategy: PanicStrategy, item: LangItem) -> bool {
    match strategy {
        PanicStrategy::Abort => item != LangItem::EhPersonality && item != LangItem::EhCatchTypeinfo,
        PanicStrategy::Unwind => true,
    }
}

/// Whether `item` is needed under the given panic strategy: the items that
/// serve unwinding are not where a panic aborts.
pub fn required(strategy: PanicStrategy, item: LangItem) -> (b: bool)
    ensures
        b == required_spec(strategy, item),
{
    match strategy {
        PanicStrategy::Abort => match item {
            LangItem::EhPersonality | LangItem::EhCatchTypeinfo => false,
            _ => true,
        },
        PanicStrategy::Unwind => true,
    }
}

/// What is produced from a crate.
#[derive(Clone, Copy, Debug, PartialEq, Eq, Structural)]
pub enum CrateType {
    Executable,
    Dylib,
    Rlib,
    Staticlib,
    Cdylib,
    ProcMacro,
}

/// A name as it stands in the source.
#[derive(Clone, Copy, Debug, PartialEq, Eq, Structural)]
pub struct Symbol(pub u32);

/// A stretch of source text.
#[derive(Clone, Copy, Debug, PartialEq, Eq, Structural)]
pub struct Span {
    pub lo: u32,
    pub hi: u32,
}

/// An attribute that marks a declaration as a language item.
#[derive(Clone, Copy, Debug, PartialEq, Eq, Structural)]
pub struct LangAttr {
    /// The name that the attribute gives.
    pub name: Symbol,
    /// The language item of that name, if there is one.
    pub item: Option<LangItem>,
}

/// A declaration of an item that is defined elsewhere.
#[derive(Clone, Copy, Debug, PartialEq, Eq, Structural)]
pub struct ForeignItem {
    pub span: Span,
    /// The declaration's language-item attribute, if it has one.
    pub lang_attr: Option<LangAttr>,
}

/// A crate, as far as this check looks at it.
#[derive(Debug)]
pub struct Crate {
    /// The foreign items in the order of the source.
    pub foreign_items: Vec<ForeignItem>,
}

/// The language items of the crate being compiled.
#[derive(Debug)]
pub struct LanguageItems {
    /// The items that have a definition.
    pub defined: Vec<LangItem>,
    /// The items that are needed and have none.
    pub missing: Vec<LangItem>,
}

/// What the check needs to know of the compilation.
#[derive(Debug)]
pub struct TyCtxt {
    /// The operating system of the target.
    pub target_os: String,
    pub panic_strategy: PanicStrategy,
    /// What is produced from the crate.
    pub crate_types: Vec<CrateType>,
    /// For each crate that this one depends on, the language items that it
    /// needs and does not define.
    pub upstream_missing: Vec<Vec<LangItem>>,
}

/// An error to report.
#[derive(Clone, Copy, Debug, PartialEq, Eq, Structural)]
pub enum Diagnostic {
    /// A foreign item claims to be a language item that is unknown or not weak.
    UnknownExternLangItem { span: Span, lang_item: Symbol },
    /// Nothing handles panics.
    MissingPanicHandler,
    /// Unwinding needs a personality routine, and there is none.
    PanicUnwindWithoutStd,
    /// The given item is needed and defined nowhere.
    MissingLangItem { item: LangItem },
}

impl LanguageItems {
    /// Whether `item` has a definition.
    pub fn has(&self, item: LangItem) -> (b: bool)
        ensures
            b == self.defined@.contains(item),
    {
        let mut i: usize = 0;
        while i < self.defined.len()
            invariant
                i <= self.defined@.len(),
                forall|j: int| 0 <= j < i ==> self.defined@[j] != item,
            decreases self.defined@.len() - i,
        {
            if self.defined[i] == item {
                return true;
            }
            i += 1;
        }
        false
    }
}

impl TyCtxt {
    /// Some crate that this one depends on needs `item` and does not define it.
    pub open spec fn misses_upstream(&self, item: LangItem) -> bool {
        exists|c: int|
            0 <= c < self.upstream_missing@.len() && (#[trigger] self.upstream_missing@[c])@.contains(
                item,
            )
    }

    /// Whether missing items matter: they do for everything that is linked,
    /// which a plain library is not.
    pub open spec fn needs_check_spec(&self) -> bool {
        exists|i: int|
            0 <= i < self.crate_types@.len() && #[trigger] self.crate_types@[i] != CrateType::Rlib
    }

    /// Whether some crate that this one depends on needs `item` and does not
    /// define it.
    pub fn is_missing_upstream(&self, item: LangItem) -> (b: bool)
        ensures
            b == self.misses_upstream(item),
    {
        let mut c: usize = 0;
        while c < self.upstream_missing.len()
            invariant
                c <= self.upstream_missing@.len(),
                forall|d: int| 0 <= d < c ==> !(#[trigger] self.upstream_missing@[d])@.contains(item),
            decreases self.upstream_missing@.len() - c,
        {
            let list = &self.upstream_missing[c];
            let mut k: usize = 0;
            while k < list.len()
                invariant
                    c < self.upstream_missing@.len(),
                    *list == self.upstream_missing@[c as int],
                    k <= list@.len(),
                    forall|j: int| 0 <= j < k ==> list@[j] != item,
                decreases list@.len() - k,
            {
                if list[k] == item {
                    assert(self.upstream_missing@[c as int]@.contains(item));
                    return true;
                }
                k += 1;
            }
            c += 1;
        }
        false
    }

    /// Whether anything but a plain library is produced.
    pub fn needs_check(&self) -> (b: bool)
        ensures
            b == self.needs_check_spec(),
    {
        let mut i: usize = 0;
        while i < self.crate_types.len()
            invariant
                i <= self.crate_types@.len(),
                forall|j: int| 0 <= j < i ==> self.crate_types@[j] == CrateType::Rlib,
            decreases self.crate_types@.len() - i,
        {
            match self.crate_types[i] {
                CrateType::Rlib => {},
                _ => {
                    return true;
                },
            }
            i += 1;
        }
        false
    }
}

/// The items that are missing whatever the source says: the personality
/// routine, and on Emscripten the type information for catching, each unless
/// it is defined.
pub open spec fn implicit_missing(tcx: &TyCtxt, defined: Seq<LangItem>) -> Seq<LangItem> {
    (if defined.contains(LangItem::EhPersonality) {
        Seq::<LangItem>::empty()
    } else {
        seq![LangItem::EhPersonality]
    }) + (if tcx.target_os@ == "emscripten"@ && !defined.contains(LangItem::EhCatchTypeinfo) {
        seq![LangItem::EhCatchTypeinfo]
    } else {
        Seq::<LangItem>::empty()
    })
}

/// The item that a foreign item adds to the missing ones: the weak item that
/// it declares, unless that is defined.
pub open spec fn missing_of(defined: Seq<LangItem>) -> spec_fn(ForeignItem) -> Option<LangItem> {
    |f: ForeignItem|
        match f.lang_attr {
            Some(LangAttr { item: Some(item), .. }) => if item.is_weak_spec() && !defined.contains(
                item,
            ) {
                Some(item)
            } else {
                None
            },
            _ => None,
        }
}

/// The error that a foreign item gives rise to: its attribute names no weak
/// language item.
pub open spec fn unknown_of() -> spec_fn(ForeignItem) -> Option<Diagnostic> {
    |f: ForeignItem|
        match f.lang_attr {
            Some(attr) => if attr.item matches Some(item) && item.is_weak_spec() {
                None
            } else {
                Some(Diagnostic::UnknownExternLangItem { span: f.span, lang_item: attr.name })
            },
            None => None,
        }
}

/// The error for a weak item that is needed and defined nowhere.
pub open spec fn missing_item_error(item: LangItem) -> Diagnostic {
    match item {
        LangItem::PanicImpl => Diagnostic::MissingPanicHandler,
        LangItem::EhPersonality => Diagnostic::PanicUnwindWithoutStd,
        _ => Diagnostic::MissingLangItem { item },
    }
}

/// The error that a weak item gives rise to at link time: a crate that this
/// one depends on misses it, the panic strategy requires it, and it is not
/// defined.
pub open spec fn link_error_of(tcx: &TyCtxt, defined: Seq<LangItem>) -> spec_fn(LangItem) -> Option<
    Diagnostic,
> {
    |item: LangItem|
        if tcx.misses_upstream(item) && required_spec(tcx.panic_strategy, item)
            && !defined.contains(item) {
            Some(missing_item_error(item))
        } else {
            None
        }
}

/// The errors of the link-time check: none for a plain library, else one for
/// each weak item that is missing, in the order of the weak items.
pub open spec fn verify_spec(tcx: &TyCtxt, defined: Seq<LangItem>) -> Seq<Diagnostic> {
    if tcx.needs_check_spec() {
        weak_lang_items_spec().filter_map(link_error_of(tcx, defined))
    } else {
        Seq::empty()
    }
}

/// Looks at one foreign item: a weak language item that it declares and that
/// is not defined is recorded as missing; an attribute that names anything
/// else is an error.
pub fn visit_foreign_item(items: &mut LanguageItems, i: &ForeignItem) -> (error: Option<Diagnostic>)
    ensures
        final(items).defined@ == old(items).defined@,
        final(items).missing@ == old(items).missing@ + match missing_of(old(items).defined@)(*i) {
            Some(item) => seq![item],
            None => Seq::empty(),
        },
        error == unknown_of()(*i),
{
    match i.lang_attr {
        Some(attr) => {
            match attr.item {
                Some(item) => {
                    if item.is_weak() {
                        if !items.has(item) {
                            items.missing.push(item);
                        }
                        return None;
                    }
                },
                None => {},
            }
            Some(Diagnostic::UnknownExternLangItem { span: i.span, lang_item: attr.name })
        },
        None => None,
    }
}

/// The link-time check: where anything but a plain library is produced, each
/// weak item that an upstream crate misses, that the panic strategy requires
/// and that is not defined is an error.
pub fn verify(tcx: &TyCtxt, items: &LanguageItems) -> (errors: Vec<Diagnostic>)
    ensures
        errors@ == verify_spec(tcx, items.defined@),
{
    let mut errors: Vec<Diagnostic> = Vec::new();
    if !tcx.needs_check() {
        return errors;
    }
    let weak: Vec<LangItem> = weak_lang_items();
    let mut k: usize = 0;
    while k < weak.len()
        invariant
            k <= weak@.len(),
            weak@ == weak_lang_items_spec(),
            errors@ == weak@.take(k as int).filter_map(link_error_of(tcx, items.defined@)),
        decreases weak@.len() - k,
    {
        let item: LangItem = weak[k];
        proof {
            weak@.lemma_filter_map_take_succ(link_error_of(tcx, items.defined@), k as int);
        }
        if tcx.is_missing_upstream(item) && required(tcx.panic_strategy, item) && !items.has(item) {
            let error: Diagnostic = match item {
                LangItem::PanicImpl => Diagnostic::MissingPanicHandler,
                LangItem::EhPersonality => Diagnostic::PanicUnwindWithoutStd,
                _ => Diagnostic::MissingLangItem { item },
            };
            errors.push(error);
        }
        k += 1;
    }
    proof {
        assert(weak@.take(weak@.len() as int) == weak@);
    }
    errors
}

/// Checks the crate for its use of weak language items: records in
/// `items.missing` those that are needed and not defined, and returns the
/// errors, those of the foreign items first.
pub fn check_crate(tcx: &TyCtxt, items: &mut LanguageItems, krate: &Crate) -> (errors: Vec<
    Diagnostic,
>)
    ensures
        final(items).defined@ == old(items).defined@,
        final(items).missing@ == old(items).missing@ + implicit_missing(tcx, old(items).defined@)
            + krate.foreign_items@.filter_map(missing_of(old(items).defined@)),
        errors@ == krate.foreign_items@.filter_map(unknown_of()) + verify_spec(
            tcx,
            old(items).defined@,
        ),
{
    // No source declares these two. They are missing unless defined.
    if !items.has(LangItem::EhPersonality) {
        items.missing.push(LangItem::EhPersonality);
    }
    let emscripten: String = "emscripten".to_owned();
    if tcx.target_os == emscripten && !items.has(LangItem::EhCatchTypeinfo) {
        items.missing.push(LangItem::EhCatchTypeinfo);
    }
    let ghost before: Seq<LangItem> = items.missing@;
    let ghost defined: Seq<LangItem> = items.defined@;

    let mut errors: Vec<Diagnostic> = Vec::new();
    let mut k: usize = 0;
    while k < krate.foreign_items.len()
        invariant
            k <= krate.foreign_items@.len(),
            items.defined@ == defined,
            items.missing@ == before + krate.foreign_items@.take(k as int).filter_map(
                missing_of(defined),
            ),
            errors@ == krate.foreign_items@.take(k as int).filter_map(unknown_of()),
        decreases krate.foreign_items@.len() - k,
    {
        proof {
            krate.foreign_items@.lemma_filter_map_take_succ(missing_of(defined), k as int);
            krate.foreign_items@.lemma_filter_map_take_succ(unknown_of(), k as int);
        }
        match visit_foreign_item(items, &krate.foreign_items[k]) {
            Some(error) => {
                errors.push(error);
            },
            None => {},
        }
        k += 1;
    }
    proof {
        assert(krate.foreign_items@.take(krate.foreign_items@.len() as int)
            == krate.foreign_items@);
    }
    let mut late: Vec<Diagnostic> = verify(tcx, items);
    errors.append(&mut late);
    errors
}

} // verus!
