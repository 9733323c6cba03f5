use vstd::prelude::*;

verus! {

/// What the engine-description logic reads of a D-Bus value that IBus sends
/// for an engine: variant wrappers, a structure and its fields, or anything
/// else.
#[derive(Debug, PartialEq, Eq)]
pub enum EngineValue {
    /// A value boxed in a D-Bus variant.
    Variant(Box<EngineValue>),
    /// A D-Bus structure with its fields in order.
    Structure(Vec<EngineField>),
    /// Any other D-Bus value.
    Other,
}

/// One field of a D-Bus structure, read as a string.
#[derive(Debug, Clone, PartialEq, Eq)]
pub enum EngineField {
    /// The field holds a string.
    Text(String),
    /// The field holds no string; the text says why, as the D-Bus value layer
    /// reported it.
    NotText(String),
}

/// Why an IBus engine description yields no engine name.
#[derive(Debug, Clone, PartialEq, Eq)]
pub enum EngineDescError {
    /// Under its variant wrappers the value is no structure.
    NotStruct,
    /// The structure has fewer than three fields.
    MissingName,
    /// The third field holds no string.
    NameNotString(String),
}

/// Index of the engine name among the fields of an IBus engine description.
pub open spec fn engine_name_index() -> int {
    2
}

/// The engine name that an IBus engine description carries: variant wrappers
/// are looked through, and the name is the third field of the structure.
pub open spec fn engine_name(v: EngineValue) -> Result<Seq<char>, EngineDescError>
    decreases v,
{
    match v {
        EngineValue::Variant(inner) => engine_name(*inner),
        EngineValue::Structure(fields) => {
            if fields@.len() <= engine_name_index() {
                Err(EngineDescError::MissingName)
            } else {
                match fields@[engine_name_index()] {
                    EngineField::Text(s) => Ok(s@),
                    EngineField::NotText(why) => Err(EngineDescError::NameNotString(why)),
                }
            }
        },
        EngineValue::Other => Err(EngineDescError::NotStruct),
    }
}

/// Reads the engine name out of an IBus engine description.
pub fn parse_engine_desc_name(value: &EngineValue) -> (name: Result<String, EngineDescError>)
    ensures
        match name {
            Ok(s) => engine_name(*value) == Ok::<Seq<char>, EngineDescError>(s@),
            Err(e) => engine_name(*value) == Err::<Seq<char>, EngineDescError>(e),
        },
    decreases value,
{
    match value {
        EngineValue::Variant(inner) => parse_engine_desc_name(inner),
        EngineValue::Structure(fields) => {
            if fields.len() <= 2 {
                Err(EngineDescError::MissingName)
            } else {
                match &fields[2] {
                    EngineField::Text(s) => Ok(s.clone()),
                    EngineField::NotText(why) => Err(EngineDescError::NameNotString(why.clone())),
                }
            }
        },
        EngineValue::Other => Err(EngineDescError::NotStruct),
    }
}

/// Wrapping a description in a variant does not change the name read from it.
pub proof fn engine_name_ignores_variant(v: EngineValue)
    ensures
        engine_name(EngineValue::Variant(Box::new(v))) == engine_name(v),
{
}

/// A structure with fewer than three fields names no engine.
pub proof fn short_structure_names_no_engine(fields: Vec<EngineField>)
    requires
        fields@.len() < 3,
    ensures
        engine_name(EngineValue::Structure(fields)) == Err::<Seq<char>, EngineDescError>(
            EngineDescError::MissingName,
        ),
{
}

/// The engine names of a list of descriptions, in order, or the error of the
/// first description that names no engine.
pub open spec fn engine_names(values: Seq<EngineValue>) -> Result<Seq<Seq<char>>, EngineDescError>
    decreases values.len(),
{
    if values.len() == 0 {
        Ok(Seq::empty())
    } else {
        match engine_names(values.drop_last()) {
            Err(e) => Err(e),
            Ok(names) => match engine_name(values.last()) {
                Ok(name) => Ok(names.push(name)),
                Err(e) => Err(e),
            },
        }
    }
}

/// Once a prefix of the list fails, the whole list fails with the same error.
proof fn engine_names_prefix_error(values: Seq<EngineValue>, k: int, e: EngineDescError)
    requires
        0 <= k <= values.len(),
        engine_names(values.take(k)) == Err::<Seq<Seq<char>>, EngineDescError>(e),
    ensures
        engine_names(values) == Err::<Seq<Seq<char>>, EngineDescError>(e),
    decreases values.len(),
{
    if values.len() == k {
        assert(values.take(k) =~= values);
    } else {
        assert(values.drop_last().take(k) =~= values.take(k));
        engine_names_prefix_error(values.drop_last(), k, e);
    }
}

/// Reads the engine name out of each IBus engine description, in order, and
/// stops at the first description that names no engine.
pub fn parse_engine_desc_names(values: &Vec<EngineValue>) -> (names: Result<Vec<String>, EngineDescError>)
    ensures
        match names {
            Ok(ns) => engine_names(values@) == Ok::<Seq<Seq<char>>, EngineDescError>(
                ns@.map_values(|n: String| n@),
            ),
            Err(e) => engine_names(values@) == Err::<Seq<Seq<char>>, EngineDescError>(e),
        },
{
    let mut names: Vec<String> = Vec::new();
    let mut i: usize = 0;
    proof {
        assert(values@.take(0) =~= Seq::<EngineValue>::empty());
        assert(names@.map_values(|n: String| n@) =~= Seq::<Seq<char>>::empty());
    }
    while i < values.len()
        invariant
            i <= values@.len(),
            engine_names(values@.take(i as int)) == Ok::<Seq<Seq<char>>, EngineDescError>(
                names@.map_values(|n: String| n@),
            ),
        decreases values@.len() - i,
    {
        proof {
            assert(values@.take(i + 1).drop_last() =~= values@.take(i as int));
            assert(values@.take(i + 1).last() == values@[i as int]);
        }
        match parse_engine_desc_name(&values[i]) {
            Ok(name) => {
                let ghost before = names@;
                names.push(name);
                proof {
                    assert(names@.map_values(|n: String| n@) =~= before.map_values(
                        |n: String| n@,
                    ).push(name@));
                }
            },
            Err(e) => {
                proof {
                    engine_names_prefix_error(values@, i + 1, e);
                }
                return Err(e);
            },
        }
        i = i + 1;
    }
    proof {
        assert(values@.take(values@.len() as int) =~= values@);
    }
    Ok(names)
}


/// The engine name is the third field of the description's structure,
/// however many fields follow it.
pub proof fn engine_name_is_third_field(fields: Vec<EngineField>)
    requires
        fields@.len() > 2,
    ensures
        fields@[2] matches EngineField::Text(s) ==> engine_name(EngineValue::Structure(fields))
            == Ok::<Seq<char>, EngineDescError>(s@),
        fields@[2] matches EngineField::NotText(why) ==> engine_name(EngineValue::Structure(fields))
            == Err::<Seq<char>, EngineDescError>(EngineDescError::NameNotString(why)),
{
}

/// When every description names an engine, the list of names has one name
/// per description, in order; otherwise the first description that names no
/// engine gives the error.
pub proof fn engine_names_one_per_description(values: Seq<EngineValue>)
    ensures
        (forall|i: int| 0 <= i < values.len() ==> (#[trigger] engine_name(values[i])) is Ok) ==> {
            &&& engine_names(values) is Ok
            &&& engine_names(values)->Ok_0.len() == values.len()
            &&& forall|i: int|
                0 <= i < values.len() ==> engine_name(values[i]) == Ok::<Seq<char>, EngineDescError>(
                    #[trigger] engine_names(values)->Ok_0[i],
                )
        },
        forall|k: int|
            0 <= k < values.len() && (forall|i: int|
                0 <= i < k ==> (#[trigger] engine_name(values[i])) is Ok) && (engine_name(
                values[k],
            ) is Err) ==> engine_names(values) == Err::<Seq<Seq<char>>, EngineDescError>(
                engine_name(values[k])->Err_0,
            ),
    decreases values.len(),
{
    if values.len() > 0 {
        let front = values.drop_last();
        engine_names_one_per_description(front);
        assert forall|i: int| 0 <= i < front.len() implies front[i] == values[i] by {}
        if forall|i: int| 0 <= i < values.len() ==> (#[trigger] engine_name(values[i])) is Ok {
            assert(forall|i: int| 0 <= i < front.len() ==> (#[trigger] engine_name(front[i])) is Ok)
                by {
                assert forall|i: int| 0 <= i < front.len() implies (#[trigger] engine_name(
                    front[i],
                )) is Ok by {
                    assert(front[i] == values[i]);
                    assert(engine_name(values[i]) is Ok);
                }
            }
            assert(engine_name(values[values.len() - 1]) is Ok);
        }
        assert forall|k: int|
            0 <= k < values.len() && (forall|i: int|
                0 <= i < k ==> (#[trigger] engine_name(values[i])) is Ok) && (engine_name(
                values[k],
            ) is Err) implies engine_names(values) == Err::<Seq<Seq<char>>, EngineDescError>(
            engine_name(values[k])->Err_0,
        ) by {
            if k < values.len() - 1 {
                assert(front[k] == values[k]);
                assert forall|i: int| 0 <= i < k implies (#[trigger] engine_name(front[i])) is Ok by {
                    assert(front[i] == values[i]);
                    assert(engine_name(values[i]) is Ok);
                }
            } else {
                assert forall|i: int| 0 <= i < front.len() implies (#[trigger] engine_name(
                    front[i],
                )) is Ok by {
                    assert(front[i] == values[i]);
                    assert(engine_name(values[i]) is Ok);
                }
            }
        }
    }
}

} // verus!
