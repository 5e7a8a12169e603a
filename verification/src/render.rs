//! Plain-text rendering of snapshot records, for reports and logs.
//!
//! Every piece of text is pinned down by a spec function over the record's
//! view, so a rendered line is exactly the record it came from: the decimal
//! digits of each identifier, the category and visibility words, and the
//! per-definition lines of a module report.

use vstd::prelude::*;

use crate::model::{ChildModule, ChildModuleV, DefRef, Visibility};
use crate::resolver::{DefinitionInfo, DefinitionInfoV, ModuleInfo, ModuleInfoV};

verus! {

/// The character for one decimal digit.
pub open spec fn digit_char(d: nat) -> char {
    if d == 0 {
        '0'
    } else if d == 1 {
        '1'
    } else if d == 2 {
        '2'
    } else if d == 3 {
        '3'
    } else if d == 4 {
        '4'
    } else if d == 5 {
        '5'
    } else if d == 6 {
        '6'
    } else if d == 7 {
        '7'
    } else if d == 8 {
        '8'
    } else {
        '9'
    }
}

/// The decimal digits of a number, most significant first.
pub open spec fn dec_digits(n: nat) -> Seq<char>
    decreases n,
{
    if n < 10 {
        seq![digit_char(n)]
    } else {
        dec_digits(n / 10) + seq![digit_char(n % 10)]
    }
}

/// One decimal digit as text.
fn digit_str(d: u64) -> (r: &'static str)
    requires
        d < 10,
    ensures
        r@ == seq![digit_char(d as nat)],
{
    proof {
        reveal_strlit("0");
        reveal_strlit("1");
        reveal_strlit("2");
        reveal_strlit("3");
        reveal_strlit("4");
        reveal_strlit("5");
        reveal_strlit("6");
        reveal_strlit("7");
        reveal_strlit("8");
        reveal_strlit("9");
    }
    match d {
        0 => "0",
        1 => "1",
        2 => "2",
        3 => "3",
        4 => "4",
        5 => "5",
        6 => "6",
        7 => "7",
        8 => "8",
        _ => "9",
    }
}

/// A number in decimal.
fn u64_to_string(n: u64) -> (s: String)
    ensures
        s@ == dec_digits(n as nat),
    decreases n,
{
    if n < 10 {
        String::from_str(digit_str(n))
    } else {
        proof {
            assert(n / 10 < n) by (nonlinear_arith)
                requires
                    n >= 10,
            ;
        }
        let mut s = u64_to_string(n / 10);
        s.append(digit_str(n % 10));
        s
    }
}

/// The text naming a definition-store reference: its category and index.
pub open spec fn def_ref_text(d: DefRef) -> Seq<char> {
    match d {
        DefRef::Module(n) => "module #"@ + dec_digits(n as nat),
        DefRef::Function(n) => "function #"@ + dec_digits(n as nat),
        DefRef::Type(n) => "type #"@ + dec_digits(n as nat),
        DefRef::TypeAlias(n) => "type alias #"@ + dec_digits(n as nat),
        DefRef::Trait(n) => "trait #"@ + dec_digits(n as nat),
        DefRef::Global(n) => "global #"@ + dec_digits(n as nat),
    }
}

fn def_ref_str(d: DefRef) -> (s: String)
    ensures
        s@ == def_ref_text(d),
{
    let (prefix, n): (&str, u64) = match d {
        DefRef::Module(n) => ("module #", n),
        DefRef::Function(n) => ("function #", n),
        DefRef::Type(n) => ("type #", n),
        DefRef::TypeAlias(n) => ("type alias #", n),
        DefRef::Trait(n) => ("trait #", n),
        DefRef::Global(n) => ("global #", n),
    };
    let mut s = String::from_str(prefix);
    s.append(u64_to_string(n).as_str());
    s
}

/// The word for a visibility.
pub open spec fn visibility_text(v: Visibility) -> Seq<char> {
    match v {
        Visibility::Private => "private"@,
        Visibility::PublicCrate => "pub(crate)"@,
        Visibility::Public => "pub"@,
    }
}

fn visibility_str(v: Visibility) -> (r: &'static str)
    ensures
        r@ == visibility_text(v),
{
    match v {
        Visibility::Private => "private",
        Visibility::PublicCrate => "pub(crate)",
        Visibility::Public => "pub",
    }
}

/// The one-line report of a definition: name, store reference, visibility,
/// a prelude marker when it was implicitly imported, and the declaring file.
pub open spec fn definition_text(d: DefinitionInfoV) -> Seq<char> {
    d.name + " ("@ + def_ref_text(d.def_id) + ") ["@ + visibility_text(d.visibility) + "]"@ + (
    if d.is_prelude {
        " [prelude]"@
    } else {
        Seq::<char>::empty()
    }) + " @ file "@ + dec_digits(d.location.file as nat)
}

impl DefinitionInfo {
    /// Renders the one-line report of this definition.
    pub fn describe(&self) -> (s: String)
        ensures
            s@ == definition_text(self@),
    {
        let mut s = String::from_str(self.name());
        s.append(" (");
        s.append(def_ref_str(self.def_id()).as_str());
        s.append(") [");
        s.append(visibility_str(self.visibility()));
        s.append("]");
        if self.is_stdlib() {
            s.append(" [prelude]");
        } else {
            proof {
                assert(s@ + Seq::<char>::empty() =~= s@);
            }
        }
        s.append(" @ file ");
        s.append(u64_to_string(self.location().file).as_str());
        s
    }
}

/// The report line of one child-module link.
pub open spec fn child_text(c: ChildModuleV) -> Seq<char> {
    "\n  - "@ + c.name + " -> module "@ + dec_digits(c.id as nat)
}

/// The report lines of a child-module table, in table order.
pub open spec fn children_text(cs: Seq<ChildModuleV>) -> Seq<char>
    decreases cs.len(),
{
    if cs.len() == 0 {
        Seq::empty()
    } else {
        children_text(cs.drop_last()) + child_text(cs.last())
    }
}

fn children_str(children: &Vec<ChildModule>) -> (s: String)
    ensures
        s@ == children_text(children.deep_view()),
{
    let mut s = String::new();
    let mut i: usize = 0;
    proof {
        assert(children.deep_view().take(0) =~~= Seq::<ChildModuleV>::empty());
    }
    while i < children.len()
        invariant
            i <= children.len(),
            s@ == children_text(children.deep_view().take(i as int)),
        decreases children.len() - i,
    {
        let c = &children[i];
        let mut line = String::from_str("\n  - ");
        line.append(c.name.as_str());
        line.append(" -> module ");
        line.append(u64_to_string(c.id).as_str());
        s.append(line.as_str());
        proof {
            let cs = children.deep_view();
            assert(c@ == cs[i as int]);
            assert(cs.take(i + 1 as int).drop_last() =~~= cs.take(i as int));
            assert(cs.take(i + 1 as int).last() == cs[i as int]);
            assert(line@ == child_text(cs[i as int]));
        }
        i += 1;
    }
    proof {
        assert(children.deep_view().take(children.len() as int) =~~= children.deep_view());
    }
    s
}

/// The report line of one definition within a module report.
pub open spec fn definition_line_text(d: DefinitionInfoV) -> Seq<char> {
    "\n  - "@ + definition_text(d)
}

/// The report lines of a module's definitions, in scope order.
pub open spec fn definitions_text(ds: Seq<DefinitionInfoV>) -> Seq<char>
    decreases ds.len(),
{
    if ds.len() == 0 {
        Seq::empty()
    } else {
        definitions_text(ds.drop_last()) + definition_line_text(ds.last())
    }
}

fn definitions_str(definitions: &Vec<DefinitionInfo>) -> (s: String)
    ensures
        s@ == definitions_text(definitions.deep_view()),
{
    let mut s = String::new();
    let mut i: usize = 0;
    proof {
        assert(definitions.deep_view().take(0) =~~= Seq::<DefinitionInfoV>::empty());
    }
    while i < definitions.len()
        invariant
            i <= definitions.len(),
            s@ == definitions_text(definitions.deep_view().take(i as int)),
        decreases definitions.len() - i,
    {
        let d = &definitions[i];
        let mut line = String::from_str("\n  - ");
        line.append(d.describe().as_str());
        s.append(line.as_str());
        proof {
            let ds = definitions.deep_view();
            assert(d@ == ds[i as int]);
            assert(ds.take(i + 1 as int).drop_last() =~~= ds.take(i as int));
            assert(ds.take(i + 1 as int).last() == ds[i as int]);
            assert(line@ == definition_line_text(ds[i as int]));
        }
        i += 1;
    }
    proof {
        assert(definitions.deep_view().take(definitions.len() as int)
            =~~= definitions.deep_view());
    }
    s
}

/// The text for a module's parent link: its number, or `none` at the crate
/// root.
pub open spec fn parent_text(p: Option<u64>) -> Seq<char> {
    match p {
        Some(n) => dec_digits(n as nat),
        None => "none"@,
    }
}

/// The multi-line report of a module: its table identifier, parent, file,
/// child links, and definitions.
pub open spec fn module_text(m: ModuleInfoV) -> Seq<char> {
    "module "@ + dec_digits(m.local_id as nat) + "\n- parent: "@ + parent_text(m.parent)
        + "\n- file: "@ + dec_digits(m.file as nat) + "\n- children:"@ + children_text(m.children)
        + "\n- definitions:"@ + definitions_text(m.definitions)
}

impl ModuleInfo {
    /// Renders the multi-line report of this module.
    pub fn describe(&self) -> (s: String)
        ensures
            s@ == module_text(self@),
    {
        let mut s = String::from_str("module ");
        s.append(u64_to_string(self.local_id()).as_str());
        s.append("\n- parent: ");
        match self.parent() {
            Some(p) => s.append(u64_to_string(p).as_str()),
            None => s.append("none"),
        }
        s.append("\n- file: ");
        s.append(u64_to_string(self.file_id()).as_str());
        s.append("\n- children:");
        s.append(children_str(self.children()).as_str());
        s.append("\n- definitions:");
        s.append(definitions_str(self.definitions()).as_str());
        s
    }
}

} // verus!
