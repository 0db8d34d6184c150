//! The names of the registered kinds.
//!
//! One table, [`names_of`], says which names each kind declares. Looking a name
//! up and naming an id are both defined by it.
use vstd::prelude::*;
use vstd::utf8::{encode_utf8, encode_utf8_decode_utf8};

verus! {

/// Whether `id` is the id of a registered kind. The ids 11, 12 and 21 are kept
/// free for kinds to come.
pub open spec fn registered(id: u32) -> bool {
    1 <= id <= 10 || 13 <= id <= 20 || id == 22 || id == 23
}

/// The names declared for the kind with the given id, the kind's own name
/// first; no name for an id that is not registered.
pub open spec fn names_of(id: u32) -> Seq<Seq<char>> {
    if id == 1 {
        seq!["bool"@, "bit"@]
    } else if id == 2 {
        seq!["char"@]
    } else if id == 3 {
        seq!["i8"@]
    } else if id == 4 {
        seq!["i16"@, "int"@]
    } else if id == 5 {
        seq!["i32"@, "long"@]
    } else if id == 6 {
        seq!["i64"@, "longlong"@]
    } else if id == 7 {
        seq!["u8"@, "byte"@]
    } else if id == 8 {
        seq!["u16"@]
    } else if id == 9 {
        seq!["u32"@]
    } else if id == 10 {
        seq!["u64"@]
    } else if id == 13 {
        seq!["f32"@, "float"@]
    } else if id == 14 {
        seq!["f64"@, "double"@]
    } else if id == 15 {
        seq!["pos2d32"@, "pos2d"@, "pos"@, "pos32"@]
    } else if id == 16 {
        seq!["pos2d64"@, "pos64"@]
    } else if id == 17 {
        seq!["pos3d32"@, "pos3d"@]
    } else if id == 18 {
        seq!["pos3d64"@]
    } else if id == 19 {
        seq!["id"@]
    } else if id == 20 {
        seq!["string"@, "str"@]
    } else if id == 22 {
        seq!["bytes"@]
    } else if id == 23 {
        seq!["small_bytes"@]
    } else {
        Seq::empty()
    }
}

/// Whether the kind with the given id declares `name`.
pub open spec fn declares(id: u32, name: Seq<char>) -> bool {
    names_of(id).contains(name)
}

/// The id of the kind that declares `name`; `0`, which is no kind's id, for a
/// name that no kind declares. No two kinds declare the same name.
pub open spec fn id_of_name(name: Seq<char>) -> u32 {
    if exists|id: u32| declares(id, name) {
        choose|id: u32| declares(id, name)
    } else {
        0
    }
}

/// The name that is given for ids that are not registered.
pub open spec fn unknown_name() -> Seq<char> {
    "N/A"@
}

/// The name of the kind with the given id: the first of its declared names.
pub open spec fn name_of_id(id: u32) -> Seq<char> {
    if registered(id) {
        names_of(id)[0]
    } else {
        unknown_name()
    }
}

/// Whether `id` is the id of a registered kind.
pub fn is_registered(id: u32) -> (known: bool)
    ensures
        known == registered(id),
{
    (1 <= id && id <= 10) || (13 <= id && id <= 20) || id == 22 || id == 23
}

/// The id that a search through the names, kind by kind, comes to.
spec fn scan(name: Seq<char>) -> u32 {
    if name == "bool"@ || name == "bit"@ {
        1
    } else if name == "char"@ {
        2
    } else if name == "i8"@ {
        3
    } else if name == "i16"@ || name == "int"@ {
        4
    } else if name == "i32"@ || name == "long"@ {
        5
    } else if name == "i64"@ || name == "longlong"@ {
        6
    } else if name == "u8"@ || name == "byte"@ {
        7
    } else if name == "u16"@ {
        8
    } else if name == "u32"@ {
        9
    } else if name == "u64"@ {
        10
    } else if name == "f32"@ || name == "float"@ {
        13
    } else if name == "f64"@ || name == "double"@ {
        14
    } else if name == "pos2d32"@ || name == "pos2d"@ || name == "pos"@ || name == "pos32"@ {
        15
    } else if name == "pos2d64"@ || name == "pos64"@ {
        16
    } else if name == "pos3d32"@ || name == "pos3d"@ {
        17
    } else if name == "pos3d64"@ {
        18
    } else if name == "id"@ {
        19
    } else if name == "string"@ || name == "str"@ {
        20
    } else if name == "bytes"@ {
        22
    } else if name == "small_bytes"@ {
        23
    } else {
        0
    }
}

/// Makes known what the names spell, and with it that a search comes to the
/// kind that declares a name.
proof fn lemma_spellings()
    ensures
        forall|id: u32, k: int|
            0 <= k < names_of(id).len() ==> registered(id) && scan(#[trigger] names_of(id)[k])
                == id,
        forall|name: Seq<char>| scan(name) != 0 ==> declares(#[trigger] scan(name), name),
        scan(unknown_name()) == 0,
{
    reveal_strlit("bool");
    reveal_strlit("bit");
    reveal_strlit("char");
    reveal_strlit("i8");
    reveal_strlit("i16");
    reveal_strlit("int");
    reveal_strlit("i32");
    reveal_strlit("long");
    reveal_strlit("i64");
    reveal_strlit("longlong");
    reveal_strlit("u8");
    reveal_strlit("byte");
    reveal_strlit("u16");
    reveal_strlit("u32");
    reveal_strlit("u64");
    reveal_strlit("f32");
    reveal_strlit("float");
    reveal_strlit("f64");
    reveal_strlit("double");
    reveal_strlit("pos2d32");
    reveal_strlit("pos2d");
    reveal_strlit("pos");
    reveal_strlit("pos32");
    reveal_strlit("pos2d64");
    reveal_strlit("pos64");
    reveal_strlit("pos3d32");
    reveal_strlit("pos3d");
    reveal_strlit("pos3d64");
    reveal_strlit("id");
    reveal_strlit("string");
    reveal_strlit("str");
    reveal_strlit("bytes");
    reveal_strlit("small_bytes");
    reveal_strlit("N/A");
    assert("bool"@ =~= seq!['b', 'o', 'o', 'l']);
    assert("bit"@ =~= seq!['b', 'i', 't']);
    assert("char"@ =~= seq!['c', 'h', 'a', 'r']);
    assert("i8"@ =~= seq!['i', '8']);
    assert("i16"@ =~= seq!['i', '1', '6']);
    assert("int"@ =~= seq!['i', 'n', 't']);
    assert("i32"@ =~= seq!['i', '3', '2']);
    assert("long"@ =~= seq!['l', 'o', 'n', 'g']);
    assert("i64"@ =~= seq!['i', '6', '4']);
    assert("longlong"@ =~= seq!['l', 'o', 'n', 'g', 'l', 'o', 'n', 'g']);
    assert("u8"@ =~= seq!['u', '8']);
    assert("byte"@ =~= seq!['b', 'y', 't', 'e']);
    assert("u16"@ =~= seq!['u', '1', '6']);
    assert("u32"@ =~= seq!['u', '3', '2']);
    assert("u64"@ =~= seq!['u', '6', '4']);
    assert("f32"@ =~= seq!['f', '3', '2']);
    assert("float"@ =~= seq!['f', 'l', 'o', 'a', 't']);
    assert("f64"@ =~= seq!['f', '6', '4']);
    assert("double"@ =~= seq!['d', 'o', 'u', 'b', 'l', 'e']);
    assert("pos2d32"@ =~= seq!['p', 'o', 's', '2', 'd', '3', '2']);
    assert("pos2d"@ =~= seq!['p', 'o', 's', '2', 'd']);
    assert("pos"@ =~= seq!['p', 'o', 's']);
    assert("pos32"@ =~= seq!['p', 'o', 's', '3', '2']);
    assert("pos2d64"@ =~= seq!['p', 'o', 's', '2', 'd', '6', '4']);
    assert("pos64"@ =~= seq!['p', 'o', 's', '6', '4']);
    assert("pos3d32"@ =~= seq!['p', 'o', 's', '3', 'd', '3', '2']);
    assert("pos3d"@ =~= seq!['p', 'o', 's', '3', 'd']);
    assert("pos3d64"@ =~= seq!['p', 'o', 's', '3', 'd', '6', '4']);
    assert("id"@ =~= seq!['i', 'd']);
    assert("string"@ =~= seq!['s', 't', 'r', 'i', 'n', 'g']);
    assert("str"@ =~= seq!['s', 't', 'r']);
    assert("bytes"@ =~= seq!['b', 'y', 't', 'e', 's']);
    assert("small_bytes"@ =~= seq!['s', 'm', 'a', 'l', 'l', '_', 'b', 'y', 't', 'e', 's']);
    assert("N/A"@ =~= seq!['N', '/', 'A']);
    assert forall|id: u32, k: int| 0 <= k < names_of(id).len() implies registered(id) && scan(
        #[trigger] names_of(id)[k],
    ) == id by {
        assert(k == 0 || k == 1 || k == 2 || k == 3);
    }
    assert forall|name: Seq<char>| scan(name) != 0 implies declares(
        #[trigger] scan(name),
        name,
    ) by {
        let names = names_of(scan(name));
        assert(names[0] == name || names[1] == name || names[2] == name || names[3] == name);
    }
}

/// A search through the names finds what [`id_of_name`] stands for.
proof fn lemma_scan(name: Seq<char>)
    ensures
        scan(name) == id_of_name(name),
{
    lemma_spellings();
    assert forall|id: u32| declares(id, name) implies id == scan(name) by {
        let k = choose|k: int| 0 <= k < names_of(id).len() && names_of(id)[k] == name;
        assert(scan(names_of(id)[k]) == id);
    }
}

/// Every name that a kind declares stands for that kind's id, whichever of the
/// kind's names it is, and only registered kinds declare names.
pub proof fn lemma_alias_to_id(id: u32, k: int)
    requires
        0 <= k < names_of(id).len(),
    ensures
        registered(id),
        id_of_name(names_of(id)[k]) == id,
{
    lemma_spellings();
    lemma_scan(names_of(id)[k]);
}

/// The name given for a registered id is the first of the names that the kind
/// declares, and looking that name up gives the id back. The name given for
/// any other id is the one for unknown ids, which no kind declares.
pub proof fn lemma_id_to_name(id: u32)
    ensures
        registered(id) ==> declares(id, name_of_id(id)) && id_of_name(name_of_id(id)) == id,
        !registered(id) ==> name_of_id(id) == unknown_name() && id_of_name(name_of_id(id)) == 0,
{
    lemma_spellings();
    lemma_scan(unknown_name());
    if registered(id) {
        assert(names_of(id).len() > 0);
        assert(names_of(id)[0] == name_of_id(id));
        lemma_alias_to_id(id, 0);
    }
}

/// A name stands for the id of the one registered kind that declares it, and
/// for `0` exactly if no kind declares it.
pub proof fn lemma_name_to_id(name: Seq<char>)
    ensures
        id_of_name(name) != 0 ==> registered(id_of_name(name)) && declares(id_of_name(name), name),
        id_of_name(name) == 0 <==> forall|id: u32| !declares(id, name),
        forall|id: u32| declares(id, name) ==> id == id_of_name(name),
{
    lemma_spellings();
    lemma_scan(name);
    assert forall|id: u32| declares(id, name) implies id == id_of_name(name) by {
        let k = choose|k: int| 0 <= k < names_of(id).len() && names_of(id)[k] == name;
        assert(scan(names_of(id)[k]) == id);
    }
    if id_of_name(name) != 0 {
        let id = id_of_name(name);
        let k = choose|k: int| 0 <= k < names_of(id).len() && names_of(id)[k] == name;
        assert(registered(id));
    }
}

/// Whether two strings hold the same text.
fn same_text(a: &str, b: &str) -> (same: bool)
    ensures
        same == (a@ == b@),
{
    let x = a.as_bytes();
    let y = b.as_bytes();
    proof {
        encode_utf8_decode_utf8(a@);
        encode_utf8_decode_utf8(b@);
    }
    if x.len() != y.len() {
        return false;
    }
    let mut i: usize = 0;
    while i < x.len()
        invariant
            i <= x@.len(),
            x@ == encode_utf8(a@),
            y@ == encode_utf8(b@),
            x@.len() == y@.len(),
            forall|j: int| 0 <= j < i ==> x@[j] == y@[j],
        decreases x@.len() - i,
    {
        if x[i] != y[i] {
            return false;
        }
        i += 1;
    }
    assert(x@ =~= y@);
    true
}

/// The id of the kind that declares `name`; `0` for a name that no kind
/// declares.
pub fn get_type_id(name: String) -> (id: u32)
    ensures
        id == id_of_name(name@),
{
    let name = name.as_str();
    proof {
        lemma_scan(name@);
    }
    if same_text(name, "bool") || same_text(name, "bit") {
        1
    } else if same_text(name, "char") {
        2
    } else if same_text(name, "i8") {
        3
    } else if same_text(name, "i16") || same_text(name, "int") {
        4
    } else if same_text(name, "i32") || same_text(name, "long") {
        5
    } else if same_text(name, "i64") || same_text(name, "longlong") {
        6
    } else if same_text(name, "u8") || same_text(name, "byte") {
        7
    } else if same_text(name, "u16") {
        8
    } else if same_text(name, "u32") {
        9
    } else if same_text(name, "u64") {
        10
    } else if same_text(name, "f32") || same_text(name, "float") {
        13
    } else if same_text(name, "f64") || same_text(name, "double") {
        14
    } else if same_text(name, "pos2d32")
        || same_text(name, "pos2d")
        || same_text(name, "pos")
        || same_text(name, "pos32")
    {
        15
    } else if same_text(name, "pos2d64") || same_text(name, "pos64") {
        16
    } else if same_text(name, "pos3d32") || same_text(name, "pos3d") {
        17
    } else if same_text(name, "pos3d64") {
        18
    } else if same_text(name, "id") {
        19
    } else if same_text(name, "string") || same_text(name, "str") {
        20
    } else if same_text(name, "bytes") {
        22
    } else if same_text(name, "small_bytes") {
        23
    } else {
        0
    }
}

/// The name of the kind with the given id; `"N/A"` for an id that is not
/// registered.
pub fn get_id_type(id: u32) -> (name: &'static str)
    ensures
        name@ == name_of_id(id),
{
    if id == 1 {
        "bool"
    } else if id == 2 {
        "char"
    } else if id == 3 {
        "i8"
    } else if id == 4 {
        "i16"
    } else if id == 5 {
        "i32"
    } else if id == 6 {
        "i64"
    } else if id == 7 {
        "u8"
    } else if id == 8 {
        "u16"
    } else if id == 9 {
        "u32"
    } else if id == 10 {
        "u64"
    } else if id == 13 {
        "f32"
    } else if id == 14 {
        "f64"
    } else if id == 15 {
        "pos2d32"
    } else if id == 16 {
        "pos2d64"
    } else if id == 17 {
        "pos3d32"
    } else if id == 18 {
        "pos3d64"
    } else if id == 19 {
        "id"
    } else if id == 20 {
        "string"
    } else if id == 22 {
        "bytes"
    } else if id == 23 {
        "small_bytes"
    } else {
        "N/A"
    }
}

} // verus!
