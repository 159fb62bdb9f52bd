use vstd::prelude::*;
use vstd::std_specs::cmp::PartialEqSpec;

verus! {

/// A property of an endpoint: a named string value.
#[derive(Debug)]
pub struct EndpointProperty {
    pub kind: String,
    pub name: String,
    pub value: String,
}

/// Where and how the data of a flow can be reached.
#[derive(Debug)]
pub struct DataAddress {
    pub kind: String,
    pub endpoint_type: String,
    pub endpoint_properties: Vec<EndpointProperty>,
}

/// What an endpoint property is, as plain values.
pub ghost struct EndpointPropertyView {
    pub kind: Seq<char>,
    pub name: Seq<char>,
    pub value: Seq<char>,
}

/// What a data address is, as plain values.
pub ghost struct DataAddressView {
    pub kind: Seq<char>,
    pub endpoint_type: Seq<char>,
    pub endpoint_properties: Seq<EndpointPropertyView>,
}

impl View for EndpointProperty {
    type V = EndpointPropertyView;

    open spec fn view(&self) -> EndpointPropertyView {
        EndpointPropertyView { kind: self.kind@, name: self.name@, value: self.value@ }
    }
}

impl View for DataAddress {
    type V = DataAddressView;

    open spec fn view(&self) -> DataAddressView {
        DataAddressView {
            kind: self.kind@,
            endpoint_type: self.endpoint_type@,
            endpoint_properties: self.endpoint_properties@.map_values(|p: EndpointProperty| p@),
        }
    }
}

/// `a` and `b` have the same kind, the same endpoint type, and at every position
/// the same endpoint property: the same kind, name and value.
pub open spec fn same_address(a: &DataAddress, b: &DataAddress) -> bool {
    &&& a.kind@ == b.kind@
    &&& a.endpoint_type@ == b.endpoint_type@
    &&& a.endpoint_properties@.len() == b.endpoint_properties@.len()
    &&& forall|j: int|
        0 <= j < a.endpoint_properties@.len() ==> {
            &&& (#[trigger] a.endpoint_properties@[j]).kind@ == b.endpoint_properties@[j].kind@
            &&& a.endpoint_properties@[j].name@ == b.endpoint_properties@[j].name@
            &&& a.endpoint_properties@[j].value@ == b.endpoint_properties@[j].value@
        }
}

/// `i` is the position of the first property of `props` whose name is `name`.
pub open spec fn is_first_named(props: Seq<EndpointProperty>, name: Seq<char>, i: int) -> bool {
    &&& 0 <= i < props.len()
    &&& props[i].name@ == name
    &&& forall|j: int| 0 <= j < i ==> #[trigger] props[j].name@ != name
}

/// Some property of `props` is named `name`.
pub open spec fn has_named(props: Seq<EndpointProperty>, name: Seq<char>) -> bool {
    exists|i: int| 0 <= i < props.len() && #[trigger] props[i].name@ == name
}

impl EndpointProperty {
    /// A property named `name` with the value `value`, of the kind `EndpointProperty`.
    pub fn new(name: String, value: String) -> (res: EndpointProperty)
        ensures
            res.kind@ == "EndpointProperty"@,
            res.name@ == name@,
            res.value@ == value@,
    {
        EndpointProperty { kind: String::from_str("EndpointProperty"), name, value }
    }
}

impl DataAddress {
    /// An address of the given endpoint type, of the kind `DataAddress`, with no properties.
    pub fn new(endpoint_type: String) -> (res: DataAddress)
        ensures
            res.kind@ == "DataAddress"@,
            res.endpoint_type@ == endpoint_type@,
            res.endpoint_properties@.len() == 0,
    {
        DataAddress {
            kind: String::from_str("DataAddress"),
            endpoint_type,
            endpoint_properties: Vec::new(),
        }
    }

    /// The value of the first endpoint property named `name`, if there is one.
    pub fn get_property(&self, name: &str) -> (res: Option<&str>)
        ensures
            res is None <==> !has_named(self.endpoint_properties@, name@),
            res matches Some(v) ==> exists|i: int|
                is_first_named(self.endpoint_properties@, name@, i)
                    && v@ == #[trigger] self.endpoint_properties@[i].value@,
    {
        let wanted = String::from_str(name);
        let props = &self.endpoint_properties;
        let n = props.len();
        let mut i: usize = 0;
        while i < n
            invariant
                props@ == self.endpoint_properties@,
                n == props@.len(),
                0 <= i <= n,
                wanted@ == name@,
                forall|j: int| 0 <= j < i ==> #[trigger] props@[j].name@ != name@,
            decreases n - i,
        {
            if props[i].name == wanted {
                assert(is_first_named(props@, name@, i as int));
                assert(props@[i as int].name@ == name@);
                return Some(props[i].value.as_str());
            }
            i = i + 1;
        }
        None
    }
}

impl Clone for EndpointProperty {
    fn clone(&self) -> (res: Self)
        ensures
            res@ == self@,
    {
        EndpointProperty {
            kind: self.kind.clone(),
            name: self.name.clone(),
            value: self.value.clone(),
        }
    }
}

impl Clone for DataAddress {
    fn clone(&self) -> (res: Self)
        ensures
            res@ == self@,
    {
        let n = self.endpoint_properties.len();
        let mut props: Vec<EndpointProperty> = Vec::new();
        let mut i: usize = 0;
        while i < n
            invariant
                n == self.endpoint_properties@.len(),
                0 <= i <= n,
                props@.len() == i,
                forall|j: int|
                    0 <= j < i ==> #[trigger] props@[j]@ == self.endpoint_properties@[j]@,
            decreases n - i,
        {
            props.push(self.endpoint_properties[i].clone());
            i = i + 1;
        }
        let res = DataAddress {
            kind: self.kind.clone(),
            endpoint_type: self.endpoint_type.clone(),
            endpoint_properties: props,
        };
        proof {
            assert(res@.endpoint_properties =~= self@.endpoint_properties);
        }
        res
    }
}

impl PartialEq for EndpointProperty {
    fn eq(&self, other: &Self) -> (res: bool)
        ensures
            res <==> (self.kind@ == other.kind@ && self.name@ == other.name@ && self.value@
                == other.value@),
    {
        self.kind == other.kind && self.name == other.name && self.value == other.value
    }
}

impl vstd::std_specs::cmp::PartialEqSpecImpl for EndpointProperty {
    open spec fn obeys_eq_spec() -> bool {
        true
    }

    open spec fn eq_spec(&self, other: &EndpointProperty) -> bool {
        self@ == other@
    }
}

impl PartialEq for DataAddress {
    fn eq(&self, other: &Self) -> (res: bool)
        ensures
            res <==> same_address(self, other),
    {
        if !(self.kind == other.kind && self.endpoint_type == other.endpoint_type) {
            return false;
        }
        let n = self.endpoint_properties.len();
        if n != other.endpoint_properties.len() {
            proof {
                assert(self@.endpoint_properties.len() != other@.endpoint_properties.len());
            }
            return false;
        }
        let mut i: usize = 0;
        while i < n
            invariant
                n == self.endpoint_properties@.len(),
                n == other.endpoint_properties@.len(),
                0 <= i <= n,
                forall|j: int|
                    0 <= j < i ==> #[trigger] self.endpoint_properties@[j]@
                        == other.endpoint_properties@[j]@,
            decreases n - i,
        {
            if !(self.endpoint_properties[i] == other.endpoint_properties[i]) {
                proof {
                    assert(self@.endpoint_properties[i as int]
                        != other@.endpoint_properties[i as int]);
                }
                return false;
            }
            i = i + 1;
        }
        proof {
            assert forall|j: int| 0 <= j < n implies {
                &&& (#[trigger] self.endpoint_properties@[j]).kind@
                    == other.endpoint_properties@[j].kind@
                &&& self.endpoint_properties@[j].name@ == other.endpoint_properties@[j].name@
                &&& self.endpoint_properties@[j].value@ == other.endpoint_properties@[j].value@
            } by {
                assert(self.endpoint_properties@[j]@ == other.endpoint_properties@[j]@);
            }
            assert(self@.endpoint_properties =~= other@.endpoint_properties);
        }
        true
    }
}

impl vstd::std_specs::cmp::PartialEqSpecImpl for DataAddress {
    open spec fn obeys_eq_spec() -> bool {
        true
    }

    open spec fn eq_spec(&self, other: &DataAddress) -> bool {
        self@ == other@
    }
}

/// Two endpoint properties are equal exactly when their kinds, names and values are the
/// same strings.
pub proof fn lemma_endpoint_property_eq(p: EndpointProperty, q: EndpointProperty)
    ensures
        p.eq_spec(&q) <==> (p.kind@ == q.kind@ && p.name@ == q.name@ && p.value@ == q.value@),
        p.eq_spec(&p),
        p.eq_spec(&q) == q.eq_spec(&p),
{
}

/// Two data addresses are equal exactly when their kinds and endpoint types are the same
/// strings and they hold equally many endpoint properties, equal position by position,
/// from the first one on.
pub proof fn lemma_data_address_eq(a: DataAddress, b: DataAddress)
    ensures
        a.eq_spec(&b) <==> same_address(&a, &b),
        a.eq_spec(&b) ==> forall|j: int|
            0 <= j < a.endpoint_properties@.len() ==> (#[trigger] a.endpoint_properties@[j]).eq_spec(
                &b.endpoint_properties@[j],
            ),
        a.endpoint_properties@.len() > 0 && b.endpoint_properties@.len() > 0
            && a.endpoint_properties@[0].value@ != b.endpoint_properties@[0].value@ ==> !a.eq_spec(
            &b,
        ),
        a.eq_spec(&a),
{
    let pa = a.endpoint_properties@;
    let pb = b.endpoint_properties@;
    assert forall|j: int| 0 <= j < pa.len() implies #[trigger] a@.endpoint_properties[j] == pa[j]@ by {
    }
    assert forall|j: int| 0 <= j < pb.len() implies #[trigger] b@.endpoint_properties[j] == pb[j]@ by {
    }
    if a.eq_spec(&b) {
        assert(pa.len() == a@.endpoint_properties.len());
        assert(pb.len() == b@.endpoint_properties.len());
        assert forall|j: int| 0 <= j < pa.len() implies (#[trigger] pa[j]).eq_spec(&pb[j]) by {
            assert(a@.endpoint_properties[j] == pa[j]@);
            assert(b@.endpoint_properties[j] == pb[j]@);
        }
        assert(same_address(&a, &b));
    }
    if same_address(&a, &b) {
        assert(a@.endpoint_properties =~= b@.endpoint_properties) by {
            assert forall|j: int| 0 <= j < a@.endpoint_properties.len() implies a@.endpoint_properties[j]
                == b@.endpoint_properties[j] by {
                assert(a@.endpoint_properties[j] == pa[j]@);
                assert(b@.endpoint_properties[j] == pb[j]@);
            }
        }
    }
}

} // verus!
