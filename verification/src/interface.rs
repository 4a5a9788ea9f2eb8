//! Interface descriptions: the functions and events of a contract, each with
//! its typed parameters.

use vstd::prelude::*;

verus! {

/// A parameter of a function or an event: its name, its declared type, and for
/// a tuple type the parameters that make it up.
#[derive(Debug)]
pub struct Parameter {
    pub name: String,
    pub ty: String,
    pub components: Vec<Parameter>,
}

/// What a [`Parameter`] holds, as mathematical values.
pub struct ParameterView {
    pub name: Seq<char>,
    pub ty: Seq<char>,
    pub components: Seq<ParameterView>,
}

/// What `p` holds.
pub open spec fn param_view(p: Parameter) -> ParameterView
    decreases p, 0nat,
{
    ParameterView {
        name: p.name@,
        ty: p.ty@,
        components: params_upto(p.components@, p.components@.len()),
    }
}

/// What the first `n` parameters of `ps` hold.
pub open spec fn params_upto(ps: Seq<Parameter>, n: nat) -> Seq<ParameterView>
    decreases ps, n,
{
    if n == 0 || n > ps.len() {
        Seq::empty()
    } else {
        params_upto(ps, (n - 1) as nat).push(param_view(ps[n - 1]))
    }
}

impl View for Parameter {
    type V = ParameterView;

    open spec fn view(&self) -> ParameterView {
        param_view(*self)
    }
}

/// The views of the parameters of `ps`, in order.
pub open spec fn param_views(ps: Seq<Parameter>) -> Seq<ParameterView> {
    Seq::new(ps.len(), |i: int| ps[i]@)
}

proof fn params_upto_is_prefix(ps: Seq<Parameter>, n: nat)
    requires
        n <= ps.len(),
    ensures
        params_upto(ps, n) == param_views(ps).subrange(0, n as int),
    decreases n,
{
    if n > 0 {
        params_upto_is_prefix(ps, (n - 1) as nat);
        assert(param_views(ps).subrange(0, n as int) =~= param_views(ps).subrange(0, n - 1).push(
            ps[n - 1]@,
        ));
    } else {
        assert(param_views(ps).subrange(0, 0) =~= Seq::<ParameterView>::empty());
    }
}

/// The components of a parameter's view are the views of its components.
pub proof fn param_components_view(p: Parameter)
    ensures
        p@.components == param_views(p.components@),
{
    params_upto_is_prefix(p.components@, p.components@.len());
    assert(param_views(p.components@).subrange(0, p.components@.len() as int) =~= param_views(
        p.components@,
    ));
}

impl Parameter {
    /// A parameter of the given name and type, without components.
    pub fn new(name: &str, ty: &str) -> (r: Parameter)
        ensures
            r@ == (ParameterView { name: name@, ty: ty@, components: Seq::empty() }),
    {
        let r = Parameter { name: String::from_str(name), ty: String::from_str(ty), components: Vec::new() };
        proof {
            param_components_view(r);
            assert(param_views(r.components@) =~= Seq::<ParameterView>::empty());
        }
        r
    }

    /// A copy of the parameter.
    pub fn duplicate(&self) -> (r: Parameter)
        ensures
            r@ == self@,
        decreases self,
    {
        let mut components: Vec<Parameter> = Vec::new();
        let mut i: usize = 0;
        while i < self.components.len()
            invariant
                i <= self.components.len(),
                components.len() == i,
                forall|k: int| 0 <= k < i ==> (#[trigger] components@[k])@ == self.components@[k]@,
            decreases self.components.len() - i,
        {
            components.push(self.components[i].duplicate());
            i += 1;
        }
        let r = Parameter { name: self.name.clone(), ty: self.ty.clone(), components };
        proof {
            param_components_view(r);
            param_components_view(*self);
            assert(param_views(r.components@) =~= param_views(self.components@));
        }
        r
    }
}

impl Clone for Parameter {
    fn clone(&self) -> (r: Self)
        ensures
            r@ == self@,
    {
        self.duplicate()
    }
}

/// A copy of `ps`.
pub fn clone_params(ps: &Vec<Parameter>) -> (r: Vec<Parameter>)
    ensures
        param_views(r@) == param_views(ps@),
{
    let mut out: Vec<Parameter> = Vec::new();
    let mut i: usize = 0;
    while i < ps.len()
        invariant
            i <= ps.len(),
            out.len() == i,
            forall|k: int| 0 <= k < i ==> (#[trigger] out@[k])@ == ps@[k]@,
        decreases ps.len() - i,
    {
        out.push(ps[i].duplicate());
        i += 1;
    }
    proof {
        assert(param_views(out@) =~= param_views(ps@));
    }
    out
}

/// One callable entry point: its name, its inputs and its outputs, in order.
#[derive(Debug)]
pub struct FunctionSignature {
    pub name: String,
    pub inputs: Vec<Parameter>,
    pub outputs: Vec<Parameter>,
}

/// What a [`FunctionSignature`] holds, as mathematical values.
pub struct FunctionView {
    pub name: Seq<char>,
    pub inputs: Seq<ParameterView>,
    pub outputs: Seq<ParameterView>,
}

impl View for FunctionSignature {
    type V = FunctionView;

    open spec fn view(&self) -> FunctionView {
        FunctionView {
            name: self.name@,
            inputs: param_views(self.inputs@),
            outputs: param_views(self.outputs@),
        }
    }
}

impl Clone for FunctionSignature {
    fn clone(&self) -> (r: Self)
        ensures
            r@ == self@,
    {
        FunctionSignature {
            name: self.name.clone(),
            inputs: clone_params(&self.inputs),
            outputs: clone_params(&self.outputs),
        }
    }
}

/// One event: its name and its inputs, in order.
#[derive(Debug)]
pub struct EventSignature {
    pub name: String,
    pub inputs: Vec<Parameter>,
}

/// What an [`EventSignature`] holds, as mathematical values.
pub struct EventView {
    pub name: Seq<char>,
    pub inputs: Seq<ParameterView>,
}

impl View for EventSignature {
    type V = EventView;

    open spec fn view(&self) -> EventView {
        EventView { name: self.name@, inputs: param_views(self.inputs@) }
    }
}

impl Clone for EventSignature {
    fn clone(&self) -> (r: Self)
        ensures
            r@ == self@,
    {
        EventSignature { name: self.name.clone(), inputs: clone_params(&self.inputs) }
    }
}

/// A contract's callable surface: its functions and its events, and the JSON
/// document that describes them. A description that was read from a document
/// holds them by name, and those of one name in the order in which they are
/// declared.
#[derive(Debug)]
pub struct InterfaceDescription {
    pub functions: Vec<FunctionSignature>,
    pub events: Vec<EventSignature>,
    pub document: String,
}

/// What an [`InterfaceDescription`] holds, as mathematical values.
pub struct InterfaceView {
    pub functions: Seq<FunctionView>,
    pub events: Seq<EventView>,
    pub document: Seq<char>,
}

/// The views of the functions of `fs`, in order.
pub open spec fn function_views(fs: Seq<FunctionSignature>) -> Seq<FunctionView> {
    Seq::new(fs.len(), |i: int| fs[i]@)
}

/// The views of the events of `es`, in order.
pub open spec fn event_views(es: Seq<EventSignature>) -> Seq<EventView> {
    Seq::new(es.len(), |i: int| es[i]@)
}

impl View for InterfaceDescription {
    type V = InterfaceView;

    open spec fn view(&self) -> InterfaceView {
        InterfaceView {
            functions: function_views(self.functions@),
            events: event_views(self.events@),
            document: self.document@,
        }
    }
}

/// The first function of `fs` that is named `name`.
pub open spec fn function_named(fs: Seq<FunctionView>, name: Seq<char>) -> Option<FunctionView>
    decreases fs.len(),
{
    if fs.len() == 0 {
        None
    } else if fs[0].name == name {
        Some(fs[0])
    } else {
        function_named(fs.drop_first(), name)
    }
}

/// The names of the functions of `fs`, in order.
pub open spec fn names_of(fs: Seq<FunctionView>) -> Seq<Seq<char>> {
    Seq::new(fs.len(), |i: int| fs[i].name)
}

impl Clone for InterfaceDescription {
    fn clone(&self) -> (r: Self)
        ensures
            r@ == self@,
    {
        let mut functions: Vec<FunctionSignature> = Vec::new();
        let mut i: usize = 0;
        while i < self.functions.len()
            invariant
                i <= self.functions.len(),
                functions.len() == i,
                forall|k: int| 0 <= k < i ==> (#[trigger] functions@[k])@ == self.functions@[k]@,
            decreases self.functions.len() - i,
        {
            functions.push(self.functions[i].clone());
            i += 1;
        }
        let mut events: Vec<EventSignature> = Vec::new();
        let mut j: usize = 0;
        while j < self.events.len()
            invariant
                j <= self.events.len(),
                events.len() == j,
                forall|k: int| 0 <= k < j ==> (#[trigger] events@[k])@ == self.events@[k]@,
            decreases self.events.len() - j,
        {
            events.push(self.events[j].clone());
            j += 1;
        }
        proof {
            assert(function_views(functions@) =~= function_views(self.functions@));
            assert(event_views(events@) =~= event_views(self.events@));
        }
        InterfaceDescription { functions, events, document: self.document.clone() }
    }
}

impl InterfaceDescription {
    /// The first function named `name`, in the order in which the description
    /// holds its functions. A description that was read from a document holds
    /// the functions of one name in the order in which they are declared.
    pub fn find_function(&self, name: &str) -> (r: Option<&FunctionSignature>)
        ensures
            r is Some <==> function_named(self@.functions, name@) is Some,
            r is Some ==> r->0@ == function_named(self@.functions, name@)->0,
    {
        let wanted = crate::text::to_chars(name);
        let mut i: usize = 0;
        proof {
            assert(self@.functions.subrange(0, self.functions.len() as int) == self@.functions);
        }
        while i < self.functions.len()
            invariant
                i <= self.functions.len(),
                wanted@ == name@,
                function_named(self@.functions, name@) == function_named(
                    self@.functions.subrange(i as int, self.functions.len() as int),
                    name@,
                ),
            decreases self.functions.len() - i,
        {
            let have = crate::text::to_chars(self.functions[i].name.as_str());
            proof {
                let rest = self@.functions.subrange(i as int, self.functions.len() as int);
                assert(rest[0] == self.functions@[i as int]@);
                assert(rest.drop_first() == self@.functions.subrange(
                    i + 1,
                    self.functions.len() as int,
                ));
            }
            if crate::text::chars_eq(&have, &wanted) {
                return Some(&self.functions[i]);
            }
            i += 1;
        }
        None
    }

    /// The names of the functions, in the order in which the description holds
    /// them.
    pub fn function_names(&self) -> (r: Vec<String>)
        ensures
            crate::text::views(r@) == names_of(self@.functions),
    {
        let mut out: Vec<String> = Vec::new();
        let mut i: usize = 0;
        while i < self.functions.len()
            invariant
                i <= self.functions.len(),
                out.len() == i,
                forall|k: int| 0 <= k < i ==> (#[trigger] out@[k])@ == self.functions@[k].name@,
            decreases self.functions.len() - i,
        {
            out.push(self.functions[i].name.clone());
            i += 1;
        }
        proof {
            assert(crate::text::views(out@) =~= names_of(self@.functions));
        }
        out
    }
}

} // verus!
