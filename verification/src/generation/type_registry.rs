use crate::generation::Context;
use crate::parser::types::{SpecType, Type};
use vstd::prelude::*;

verus! {

/// A scalar machine type owned by the backend: a fixed-width integer, a
/// fixed-width IEEE floating-point type, or void.
#[derive(Clone, Copy, Debug, PartialEq, Eq, Structural)]
pub enum ScalarType {
    Integer { bits: u32 },
    Float { bits: u32 },
    Void,
}

/// A backend type handle, described structurally: a scalar, or a pointer to
/// a scalar. Multi-level pointers are not supported.
#[derive(Clone, Copy, Debug, PartialEq, Eq, Structural)]
pub enum BackendType {
    Scalar(ScalarType),
    Pointer(ScalarType),
}

/// The pointer type over a base type. The registry only ever holds scalar
/// entries, so a pointer base is left as it stands.
pub open spec fn spec_pointer_to(base: BackendType) -> BackendType {
    match base {
        BackendType::Scalar(s) => BackendType::Pointer(s),
        BackendType::Pointer(s) => BackendType::Pointer(s),
    }
}

/// The pointer type over a base type.
pub fn pointer_to(base: BackendType) -> (r: BackendType)
    ensures
        r == spec_pointer_to(base),
{
    match base {
        BackendType::Scalar(s) => BackendType::Pointer(s),
        BackendType::Pointer(s) => BackendType::Pointer(s),
    }
}

/// A registry entry: a symbolic name resolved to its backend type handle and
/// its size in bits.
#[derive(Debug)]
pub struct TypeDef {
    pub name: String,
    pub type_ref: BackendType,
    pub size: usize,
}

/// Mathematical form of a registry entry.
pub struct SpecTypeDef {
    pub name: Seq<char>,
    pub type_ref: BackendType,
    pub size: int,
}

impl View for TypeDef {
    type V = SpecTypeDef;

    open spec fn view(&self) -> SpecTypeDef {
        SpecTypeDef { name: self.name@, type_ref: self.type_ref, size: self.size as int }
    }
}

impl TypeDef {
    /// A field-for-field copy of this entry.
    pub fn duplicate(&self) -> (r: TypeDef)
        ensures
            r@ == self@,
    {
        TypeDef { name: self.name.clone(), type_ref: self.type_ref, size: self.size }
    }

    /// Whether two entries resolve to the very same type: name, backend
    /// handle and size must all agree.
    pub fn same_type(&self, other: &TypeDef) -> (r: bool)
        ensures
            r == (self@ == other@),
    {
        let names_equal = self.name == other.name;
        if names_equal && self.type_ref == other.type_ref && self.size == other.size {
            proof {
                assert(self@ == other@);
            }
            true
        } else {
            false
        }
    }
}

/// The name-to-entry mapping a registry sequence stands for; a later entry
/// for the same name would win, though the seeded registry has distinct
/// names throughout.
pub open spec fn registry_view(entries: Seq<TypeDef>) -> Map<Seq<char>, SpecTypeDef>
    decreases entries,
{
    if entries.len() == 0 {
        Map::empty()
    } else {
        registry_view(entries.drop_last()).insert(entries.last().name@, entries.last()@)
    }
}

/// What looking a symbolic type up in the registry means: the entry under
/// the type's name, or nothing when the name is unknown; when the pointer
/// marker is set, a pointer entry over the base is synthesized on demand,
/// word-sized (64 bits) regardless of the pointee's size.
pub open spec fn spec_registry_get(
    types: Map<Seq<char>, SpecTypeDef>,
    t: SpecType,
) -> Option<SpecTypeDef> {
    if !types.contains_key(t.name) {
        None
    } else if t.is_pointer {
        Some(
            SpecTypeDef {
                name: t.name,
                type_ref: spec_pointer_to(types[t.name].type_ref),
                size: 64,
            },
        )
    } else {
        Some(types[t.name])
    }
}

/// The scalar entries every generation context starts from: the fixed-width
/// integers, the two IEEE floating-point widths, the void sentinel `()`,
/// and `bool` stored as a byte.
pub open spec fn spec_initial_types() -> Map<Seq<char>, SpecTypeDef> {
    Map::empty().insert(
        "u8"@,
        SpecTypeDef { name: "u8"@, type_ref: BackendType::Scalar(ScalarType::Integer { bits: 8 }), size: 8 },
    ).insert(
        "i8"@,
        SpecTypeDef { name: "i8"@, type_ref: BackendType::Scalar(ScalarType::Integer { bits: 8 }), size: 8 },
    ).insert(
        "u16"@,
        SpecTypeDef { name: "u16"@, type_ref: BackendType::Scalar(ScalarType::Integer { bits: 16 }), size: 16 },
    ).insert(
        "i16"@,
        SpecTypeDef { name: "i16"@, type_ref: BackendType::Scalar(ScalarType::Integer { bits: 16 }), size: 16 },
    ).insert(
        "u32"@,
        SpecTypeDef { name: "u32"@, type_ref: BackendType::Scalar(ScalarType::Integer { bits: 32 }), size: 32 },
    ).insert(
        "i32"@,
        SpecTypeDef { name: "i32"@, type_ref: BackendType::Scalar(ScalarType::Integer { bits: 32 }), size: 32 },
    ).insert(
        "u64"@,
        SpecTypeDef { name: "u64"@, type_ref: BackendType::Scalar(ScalarType::Integer { bits: 64 }), size: 64 },
    ).insert(
        "i64"@,
        SpecTypeDef { name: "i64"@, type_ref: BackendType::Scalar(ScalarType::Integer { bits: 64 }), size: 64 },
    ).insert(
        "f32"@,
        SpecTypeDef { name: "f32"@, type_ref: BackendType::Scalar(ScalarType::Float { bits: 32 }), size: 32 },
    ).insert(
        "f64"@,
        SpecTypeDef { name: "f64"@, type_ref: BackendType::Scalar(ScalarType::Float { bits: 64 }), size: 64 },
    ).insert(
        "()"@,
        SpecTypeDef { name: "()"@, type_ref: BackendType::Scalar(ScalarType::Void), size: 0 },
    ).insert(
        "bool"@,
        SpecTypeDef { name: "bool"@, type_ref: BackendType::Scalar(ScalarType::Integer { bits: 8 }), size: 8 },
    )
}

/// The seeded registry resolves `i64` to the 64-bit integer entry: the type
/// every integer literal is generated at.
pub proof fn lemma_initial_types_i64()
    ensures
        spec_registry_get(spec_initial_types(), SpecType { name: "i64"@, is_pointer: false })
            == Some(
            SpecTypeDef {
                name: "i64"@,
                type_ref: BackendType::Scalar(ScalarType::Integer { bits: 64 }),
                size: 64,
            },
        ),
{
    reveal_strlit("i64");
    reveal_strlit("f32");
    reveal_strlit("f64");
    reveal_strlit("()");
    reveal_strlit("bool");
    assert("i64"@.len() == 3);
    assert("f32"@.len() == 3);
    assert("i64"@[0] == 'i');
    assert("f32"@[0] == 'f');
    assert("i64"@ != "f32"@);
}

/// Pointer type resolution: `*i32` resolves to a synthesized word-sized
/// (64-bit) pointer entry over the 32-bit integer base, distinct from the
/// plain `i32` entry of size 32.
pub proof fn lemma_pointer_resolution()
    ensures
        spec_registry_get(spec_initial_types(), SpecType { name: "i32"@, is_pointer: true })
            == Some(
            SpecTypeDef {
                name: "i32"@,
                type_ref: BackendType::Pointer(ScalarType::Integer { bits: 32 }),
                size: 64,
            },
        ),
        spec_registry_get(spec_initial_types(), SpecType { name: "i32"@, is_pointer: false })
            == Some(
            SpecTypeDef {
                name: "i32"@,
                type_ref: BackendType::Scalar(ScalarType::Integer { bits: 32 }),
                size: 32,
            },
        ),
        spec_registry_get(spec_initial_types(), SpecType { name: "i32"@, is_pointer: true })
            != spec_registry_get(
            spec_initial_types(),
            SpecType { name: "i32"@, is_pointer: false },
        ),
{
    reveal_strlit("i32");
    reveal_strlit("u64");
    reveal_strlit("i64");
    reveal_strlit("f32");
    reveal_strlit("f64");
    reveal_strlit("()");
    reveal_strlit("bool");
    assert("i32"@.len() == 3 && "()"@.len() == 2 && "bool"@.len() == 4);
    assert("i32"@[0] == 'i' && "u64"@[0] == 'u' && "f32"@[0] == 'f' && "f64"@[0] == 'f');
    assert("i32"@[1] == '3' && "i64"@[1] == '6');
    assert("i32"@ != "u64"@ && "i32"@ != "i64"@ && "i32"@ != "f32"@ && "i32"@ != "f64"@
        && "i32"@ != "()"@ && "i32"@ != "bool"@);
}

/// Maps symbolic type names to backend type handles and sizes. Scalar
/// entries are seeded once per generation context; pointer entries are
/// synthesized on lookup and not cached.
pub struct TypeRegistry {
    types: Vec<TypeDef>,
}

impl View for TypeRegistry {
    type V = Map<Seq<char>, SpecTypeDef>;

    closed spec fn view(&self) -> Map<Seq<char>, SpecTypeDef> {
        registry_view(self.types@)
    }
}

/// Appends one seeded entry to the registry under construction.
fn seed(types: &mut Vec<TypeDef>, name: &str, type_ref: BackendType, size: usize)
    ensures
        registry_view(final(types)@) == registry_view(old(types)@).insert(
            name@,
            SpecTypeDef { name: name@, type_ref, size: size as int },
        ),
{
    let ghost before = types@;
    types.push(TypeDef { name: name.to_owned(), type_ref, size });
    proof {
        assert(types@.drop_last() =~= before);
    }
}

impl TypeRegistry {
    /// Seeds the registry with the fixed scalar entries.
    pub fn new(context: &Context) -> (r: Self)
        ensures
            r@ == spec_initial_types(),
    {
        let mut types: Vec<TypeDef> = Vec::new();

        seed(&mut types, "u8", BackendType::Scalar(ScalarType::Integer { bits: 8 }), 8);
        seed(&mut types, "i8", BackendType::Scalar(ScalarType::Integer { bits: 8 }), 8);
        seed(&mut types, "u16", BackendType::Scalar(ScalarType::Integer { bits: 16 }), 16);
        seed(&mut types, "i16", BackendType::Scalar(ScalarType::Integer { bits: 16 }), 16);
        seed(&mut types, "u32", BackendType::Scalar(ScalarType::Integer { bits: 32 }), 32);
        seed(&mut types, "i32", BackendType::Scalar(ScalarType::Integer { bits: 32 }), 32);
        seed(&mut types, "u64", BackendType::Scalar(ScalarType::Integer { bits: 64 }), 64);
        seed(&mut types, "i64", BackendType::Scalar(ScalarType::Integer { bits: 64 }), 64);
        seed(&mut types, "f32", BackendType::Scalar(ScalarType::Float { bits: 32 }), 32);
        seed(&mut types, "f64", BackendType::Scalar(ScalarType::Float { bits: 64 }), 64);
        seed(&mut types, "()", BackendType::Scalar(ScalarType::Void), 0);
        seed(&mut types, "bool", BackendType::Scalar(ScalarType::Integer { bits: 8 }), 8);

        Self { types }
    }

    /// The last entry whose name matches, searching the first `n` entries.
    fn find_in<'a>(types: &'a Vec<TypeDef>, name: &String, n: usize) -> (r: Option<&'a TypeDef>)
        requires
            n <= types@.len(),
        ensures
            match r {
                Some(td) => registry_view(types@.take(n as int)).contains_key(name@)
                    && registry_view(types@.take(n as int))[name@] == td@,
                None => !registry_view(types@.take(n as int)).contains_key(name@),
            },
        decreases n,
    {
        if n == 0 {
            proof {
                assert(types@.take(0) =~= Seq::<TypeDef>::empty());
            }
            None
        } else {
            proof {
                assert(types@.take(n as int).drop_last() =~= types@.take(n as int - 1));
                assert(types@.take(n as int).last() == types@[n as int - 1]);
            }
            let td = &types[n - 1];
            if td.name == *name {
                Some(td)
            } else {
                Self::find_in(types, name, n - 1)
            }
        }
    }

    /// Resolves a symbolic type: nothing when the name is not registered;
    /// the scalar entry as it stands; or, for a pointer type, a synthesized
    /// word-sized pointer entry over the base.
    pub fn get(&self, t: &Type) -> (r: Option<TypeDef>)
        ensures
            match r {
                Some(td) => spec_registry_get(self@, t@) == Some(td@),
                None => spec_registry_get(self@, t@) is None,
            },
    {
        proof {
            assert(self.types@.take(self.types@.len() as int) =~= self.types@);
        }
        let n = self.types.len();
        let base = match Self::find_in(&self.types, &t.name, n) {
            Some(td) => td,
            None => {
                return None;
            },
        };
        if t.is_pointer {
            Some(
                TypeDef {
                    name: t.name.clone(),
                    type_ref: pointer_to(base.type_ref),
                    size: 64,
                },
            )
        } else {
            Some(base.duplicate())
        }
    }
}

} // verus!
