//! Rendering: exact text for definition and module reports.

use lucid_noir::model::{ChildModule, DefRef, Location, Visibility};
use lucid_noir::resolver::{DefinitionInfo, DefinitionKind, ModuleInfo};

fn def(name: &str, def_id: DefRef, visibility: Visibility, is_prelude: bool, file: u64) -> DefinitionInfo {
    DefinitionInfo::new(
        name.to_string(),
        DefinitionKind::Function,
        def_id,
        visibility,
        is_prelude,
        Location { file, start: 0, end: 1 },
    )
}

#[test]
fn definition_report_is_exact() {
    let d = def("main", DefRef::Function(7), Visibility::Public, false, 3);
    assert_eq!(d.describe(), "main (function #7) [pub] @ file 3");
}

#[test]
fn definition_report_marks_prelude_imports() {
    let d = def("assert_eq", DefRef::Function(120), Visibility::PublicCrate, true, 0);
    assert_eq!(d.describe(), "assert_eq (function #120) [pub(crate)] [prelude] @ file 0");
}

#[test]
fn definition_report_names_every_reference_category() {
    assert_eq!(
        def("m", DefRef::Module(1), Visibility::Private, false, 1).describe(),
        "m (module #1) [private] @ file 1"
    );
    assert_eq!(
        def("g", DefRef::Global(2), Visibility::Private, false, 1).describe(),
        "g (global #2) [private] @ file 1"
    );
    assert_eq!(
        def("t", DefRef::Trait(3), Visibility::Private, false, 1).describe(),
        "t (trait #3) [private] @ file 1"
    );
    assert_eq!(
        def("a", DefRef::TypeAlias(4), Visibility::Private, false, 1).describe(),
        "a (type alias #4) [private] @ file 1"
    );
    assert_eq!(
        def("s", DefRef::Type(5), Visibility::Private, false, 1).describe(),
        "s (type #5) [private] @ file 1"
    );
}

#[test]
fn module_report_lists_children_and_definitions() {
    let mut m = ModuleInfo::new(
        0,
        None,
        vec![
            ChildModule { name: "util".to_string(), id: 1 },
            ChildModule { name: "types".to_string(), id: 2 },
        ],
        10,
    );
    m.add_definition(def("main", DefRef::Function(7), Visibility::Public, false, 10));
    m.add_definition(def("helper", DefRef::Function(8), Visibility::Private, false, 10));
    let expected = "module 0\n\
                    - parent: none\n\
                    - file: 10\n\
                    - children:\n  \
                      - util -> module 1\n  \
                      - types -> module 2\n\
                    - definitions:\n  \
                      - main (function #7) [pub] @ file 10\n  \
                      - helper (function #8) [private] @ file 10";
    assert_eq!(m.describe(), expected);
}

#[test]
fn module_report_with_a_parent_and_nothing_else() {
    let m = ModuleInfo::new(18446744073709551615, Some(0), Vec::new(), 2);
    assert_eq!(
        m.describe(),
        "module 18446744073709551615\n- parent: 0\n- file: 2\n- children:\n- definitions:"
    );
}
