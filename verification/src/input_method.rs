use vstd::prelude::*;

verus! {

/// One input method as the Fcitx5 controller describes it.
#[derive(Debug, Clone, PartialEq, Eq)]
pub struct InputMethod {
    pub unique_name: String,
    pub name: String,
    pub native_name: String,
    pub icon: String,
    pub label: String,
    pub language_code: String,
    pub enabled: bool,
}

/// The record in which the Fcitx5 controller lists an input method: unique
/// name, name, native name, icon, label, language code, enabled.
pub type InputMethodTuple = (String, String, String, String, String, String, bool);

impl From<InputMethodTuple> for InputMethod {
    fn from(value: InputMethodTuple) -> (method: Self) {
        let (unique_name, name, native_name, icon, label, language_code, enabled) = value;
        InputMethod { unique_name, name, native_name, icon, label, language_code, enabled }
    }
}

impl vstd::std_specs::convert::FromSpecImpl<InputMethodTuple> for InputMethod {
    open spec fn obeys_from_spec() -> bool {
        true
    }

    open spec fn from_spec(v: InputMethodTuple) -> InputMethod {
        InputMethod {
            unique_name: v.0,
            name: v.1,
            native_name: v.2,
            icon: v.3,
            label: v.4,
            language_code: v.5,
            enabled: v.6,
        }
    }
}

/// The line that lists an input method: its unique name, a tab, its name.
pub open spec fn list_line(m: InputMethod) -> Seq<char> {
    m.unique_name@ + "\t"@ + m.name@
}

/// Formats an input method for the output of `list`.
pub fn format_input_method(method: &InputMethod) -> (line: String)
    ensures
        line@ == list_line(*method),
{
    let line = method.unique_name.clone();
    let line = line.concat("\t");
    line.concat(method.name.as_str())
}

/// The lines that list the input methods, one per method, in order.
pub open spec fn list_lines_of(methods: Seq<InputMethod>) -> Seq<Seq<char>> {
    methods.map_values(|m: InputMethod| list_line(m))
}

/// Formats each input method for the output of `list`, in order.
pub fn list_lines(methods: &Vec<InputMethod>) -> (lines: Vec<String>)
    ensures
        lines@.map_values(|l: String| l@) == list_lines_of(methods@),
{
    let mut lines: Vec<String> = Vec::new();
    let mut i: usize = 0;
    while i < methods.len()
        invariant
            i <= methods@.len(),
            lines@.map_values(|l: String| l@) == list_lines_of(methods@.take(i as int)),
        decreases methods@.len() - i,
    {
        let line = format_input_method(&methods[i]);
        proof {
            assert(methods@.take(i + 1) =~= methods@.take(i as int).push(methods@[i as int]));
        }
        let ghost before = lines@;
        lines.push(line);
        proof {
            assert(lines@ == before.push(line));
            assert(lines@.map_values(|l: String| l@) =~= before.map_values(|l: String| l@).push(
                line@,
            ));
            assert(list_lines_of(methods@.take(i + 1)) =~= list_lines_of(
                methods@.take(i as int),
            ).push(list_line(methods@[i as int])));
        }
        i = i + 1;
    }
    proof {
        assert(methods@.take(methods@.len() as int) =~= methods@);
    }
    lines
}


/// The line of an input method is its unique name, a tab, and its name,
/// whatever its other fields say.
pub proof fn list_line_is_unique_name_tab_name(m: InputMethod)
    ensures
        list_line(m) == m.unique_name@ + seq!['\t'] + m.name@,
{
    reveal_strlit("\t");
    assert("\t"@ =~= seq!['\t']);
}

/// The list has one line per input method, in order, each the method's
/// unique name, a tab, and its name.
pub proof fn list_lines_one_per_method(methods: Seq<InputMethod>)
    ensures
        list_lines_of(methods).len() == methods.len(),
        forall|i: int|
            0 <= i < methods.len() ==> #[trigger] list_lines_of(methods)[i] == methods[i].unique_name@
                + seq!['\t'] + methods[i].name@,
{
    assert forall|i: int| 0 <= i < methods.len() implies #[trigger] list_lines_of(methods)[i]
        == methods[i].unique_name@ + seq!['\t'] + methods[i].name@ by {
        list_line_is_unique_name_tab_name(methods[i]);
    }
}

} // verus!
