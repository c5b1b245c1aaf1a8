//! State-type assignment and setter-method synthesis for one field.
use vstd::prelude::*;
use vstd::string::*;
use crate::error::BuilderError;
use crate::field::{eligibility_type, norm_ident, normalized_ident, Field, Optionality};
use crate::text::{clone_all, views};
use crate::ty::{qualifies_for_into, type_qualifies_for_into, TypeExpr};

verus! {

/// The builder-generation context of one entity.
pub struct BuilderGenCtx {
    /// The name of the generated builder type.
    pub builder_ident: String,
    /// The names of the entity's own generic type parameters.
    pub type_params: Vec<String>,
    /// The fields, in declaration order: position `i` of every state tuple
    /// stands for `fields[i]`.
    pub fields: Vec<Field>,
}

/// The marker at one position of a state tuple.
#[derive(Clone, Copy, Debug, PartialEq, Eq, Structural)]
pub enum StateMarker {
    /// The position keeps the incoming state's marker for that field.
    Current,
    /// The position holds the set marker, carrying the field's declared type.
    Supplied,
}

/// What a setter accepts and stores.
#[derive(Clone, Copy, Debug, PartialEq, Eq, Structural)]
pub enum SetterKind {
    /// A required field: accepts the declared type, stores it.
    Required,
    /// The primary setter of an optional field: accepts the inner type, stores
    /// it wrapped as present.
    OptionalValue,
    /// The secondary setter of an optional field: accepts an optional of the
    /// inner type, stores it as given.
    OptionalMaybe,
}

/// One generated setter method.
pub struct SetterMethod {
    pub name: String,
    pub kind: SetterKind,
    /// The parameter accepts anything convertible into the accepted type, and
    /// the value is converted before it is stored (element-wise for an
    /// optional value).
    pub into: bool,
    pub docs: Vec<String>,
}

/// Everything generated for one field: the alias of the builder type after
/// the field is set, and the setters, which are callable only while the
/// field's state is unset.
pub struct FieldSetterImpl {
    pub alias_ident: String,
    /// The alias takes a generic parameter for the incoming state; it does not
    /// when the entity has a single field, as the tuple is then fixed.
    pub alias_has_state_param: bool,
    /// The state tuple the setters return.
    pub output_states: Vec<StateMarker>,
    pub methods: Vec<SetterMethod>,
}

/// A setter before its documentation is resolved.
pub struct FieldSetterMethod {
    pub method_name: String,
    pub kind: SetterKind,
    pub into: bool,
    pub overwrite_docs: Option<String>,
}

/// The name, kind, conversion flag and doc lines of a setter.
pub open spec fn method_view(m: SetterMethod) -> (Seq<char>, SetterKind, bool, Seq<Seq<char>>) {
    (m.name@, m.kind, m.into, views(m.docs@))
}

pub open spec fn method_views(ms: Seq<SetterMethod>) -> Seq<(Seq<char>, SetterKind, bool, Seq<Seq<char>>)> {
    ms.map_values(|m: SetterMethod| method_view(m))
}

/// The documentation of the secondary setter of an optional field.
pub open spec fn maybe_doc(name: Seq<char>) -> Seq<char> {
    "Same as [`Self::"@ + name
        + "`], but accepts an `Option` as input. See that method's documentation for more details."@
}

/// The setters of `f`, where `into` is the conversion answer: one for a
/// required field; for an optional one the secondary setter, then the primary.
pub open spec fn expected_methods(f: Field, into: bool) -> Seq<(Seq<char>, SetterKind, bool, Seq<Seq<char>>)> {
    let name = norm_ident(f.ident@);
    match f.optionality {
        Optionality::Required => seq![(name, SetterKind::Required, into, views(f.docs@))],
        Optionality::Optional(_) => seq![
            ("maybe_"@ + name, SetterKind::OptionalMaybe, into, seq![maybe_doc(name)]),
            (name, SetterKind::OptionalValue, into, views(f.docs@)),
        ],
    }
}

/// The outcome of an explicit `into` setting against the default answer:
/// the answer, or `None` where the setting is redundant.
pub open spec fn into_decision(user_override: Option<bool>, default_value: bool) -> Option<bool> {
    match user_override {
        None => Some(default_value),
        Some(v) => if v != default_value {
            Some(v)
        } else {
            None
        },
    }
}

/// `e` reports that `f`'s `into` setting repeats the default answer `d`.
pub open spec fn is_redundant_into(e: BuilderError, f: Field, d: bool) -> bool {
    e matches BuilderError::RedundantInto { field, origin, already_qualifies }
        && field@ == f.ident@ && origin == f.origin && already_qualifies == d
}

/// The state tuple after setting the field named `id`: the set marker at
/// that field's position, the incoming marker everywhere else.
pub open spec fn output_states_spec(fields: Seq<Field>, id: Seq<char>) -> Seq<StateMarker> {
    Seq::new(fields.len(), |i: int| if fields[i].ident@ == id { StateMarker::Supplied } else { StateMarker::Current })
}

/// The name of the alias for the builder after the field with state
/// associated type `assoc` is set.
pub open spec fn alias_ident_spec(builder: Seq<char>, assoc: Seq<char>) -> Seq<char> {
    "__"@ + builder + "Set"@ + assoc
}

/// The conversion answer for `f` among the type parameters `type_params`,
/// or `None` where its `into` setting is redundant.
pub open spec fn into_answer(type_params: Seq<Seq<char>>, f: Field) -> Option<bool> {
    into_decision(f.into_override, qualifies_for_into(eligibility_type(f), type_params))
}

/// `imp` is what is generated for field `f` of a builder named `builder`
/// with fields `fields`, where `v` is the conversion answer for `f`.
pub open spec fn is_setter_impl(imp: FieldSetterImpl, builder: Seq<char>, fields: Seq<Field>, f: Field, v: bool) -> bool {
    &&& imp.alias_ident@ == alias_ident_spec(builder, f.state_assoc_ident@)
    &&& imp.alias_has_state_param == (fields.len() > 1)
    &&& imp.output_states@ == output_states_spec(fields, f.ident@)
    &&& method_views(imp.methods@) == expected_methods(f, v)
}

/// Builds the context of one entity and synthesizes the setters of each of
/// its fields, in order. Colliding field names are refused first; then the
/// first field whose `into` setting is redundant.
pub fn builder_setters(builder_ident: String, type_params: Vec<String>, fields: Vec<Field>) -> (r: Result<Vec<FieldSetterImpl>, BuilderError>)
    ensures
        !unique_norm_idents(fields@) ==> (r matches Err(BuilderError::DuplicateField { name })
            && exists|i: int| 0 <= i < fields@.len() && name@ == norm_ident(#[trigger] fields@[i].ident@)),
        unique_norm_idents(fields@) ==> {
            &&& (forall|i: int| 0 <= i < fields@.len() ==> (#[trigger] into_answer(views(type_params@), fields@[i])) is Some)
                ==> r is Ok
            &&& r matches Ok(imps) ==> {
                &&& imps@.len() == fields@.len()
                &&& forall|i: int| 0 <= i < fields@.len() ==> #[trigger] into_answer(views(type_params@), fields@[i]) is Some
                    && is_setter_impl(imps@[i], builder_ident@, fields@, fields@[i],
                        into_answer(views(type_params@), fields@[i])->Some_0)
            }
            &&& r matches Err(e) ==> exists|i: int| {
                &&& 0 <= i < fields@.len()
                &&& #[trigger] into_answer(views(type_params@), fields@[i]) is None
                &&& forall|j: int| 0 <= j < i ==> into_answer(views(type_params@), fields@[j]) is Some
                &&& is_redundant_into(e, fields@[i], qualifies_for_into(eligibility_type(fields@[i]), views(type_params@)))
            }
        },
{
    let ghost fields0 = fields@;
    let ghost builder0 = builder_ident@;
    let ghost params0 = views(type_params@);
    let ctx = BuilderGenCtx::new(builder_ident, type_params, fields)?;
    assert(unique_norm_idents(fields0));
    let mut imps: Vec<FieldSetterImpl> = Vec::new();
    let mut i: usize = 0;
    while i < ctx.fields.len()
        invariant
            ctx.wf(),
            ctx.fields@ == fields0,
            ctx.builder_ident@ == builder0,
            ctx.type_param_names() == params0,
            unique_norm_idents(fields0),
            fields0 == fields@,
            builder0 == builder_ident@,
            params0 == views(type_params@),
            i <= ctx.fields@.len(),
            imps@.len() == i,
            forall|j: int| 0 <= j < i ==> #[trigger] into_answer(params0, fields0[j]) is Some
                && is_setter_impl(imps@[j], builder0, fields0, fields0[j], into_answer(params0, fields0[j])->Some_0),
        decreases ctx.fields.len() - i,
    {
        let imp = ctx.setter_methods_impls_for_field(&ctx.fields[i]);
        match imp {
            Ok(imp) => imps.push(imp),
            Err(e) => {
                assert(into_answer(params0, fields0[i as int]) is None);
                return Err(e);
            },
        }
        assert(into_answer(params0, fields0[i as int]) is Some);
        i = i + 1;
    }
    Ok(imps)
}

/// Field names are unique once leading underscores are dropped.
pub open spec fn unique_norm_idents(fields: Seq<Field>) -> bool {
    forall|i: int, j: int|
        0 <= i < fields.len() && 0 <= j < fields.len() && i != j
            ==> norm_ident(#[trigger] fields[i].ident@) != norm_ident(#[trigger] fields[j].ident@)
}

impl BuilderGenCtx {
    pub open spec fn type_param_names(&self) -> Seq<Seq<char>> {
        views(self.type_params@)
    }

    /// Field names are unique once leading underscores are dropped.
    pub open spec fn wf(&self) -> bool {
        unique_norm_idents(self.fields@)
    }

    /// A context over `fields`, refused where two field names collide once
    /// leading underscores are dropped (`_a` and `a`).
    pub fn new(builder_ident: String, type_params: Vec<String>, fields: Vec<Field>) -> (r: Result<Self, BuilderError>)
        ensures
            unique_norm_idents(fields@) ==> (r matches Ok(ctx) && ctx.builder_ident == builder_ident
                && ctx.type_params == type_params && ctx.fields == fields && ctx.wf()),
            !unique_norm_idents(fields@) ==> (r matches Err(BuilderError::DuplicateField { name })
                && exists|i: int| 0 <= i < fields@.len() && name@ == norm_ident(#[trigger] fields@[i].ident@)),
    {
        let mut names: Vec<String> = Vec::new();
        let mut i: usize = 0;
        while i < fields.len()
            invariant
                i <= fields@.len(),
                names@.len() == i,
                forall|k: int| 0 <= k < i ==> (#[trigger] names@[k])@ == norm_ident(fields@[k].ident@),
                forall|a: int, b: int| 0 <= a < i && 0 <= b < i && a != b
                    ==> norm_ident(#[trigger] fields@[a].ident@) != norm_ident(#[trigger] fields@[b].ident@),
            decreases fields.len() - i,
        {
            let name = normalized_ident(&fields[i].ident);
            let mut j: usize = 0;
            while j < i
                invariant
                    j <= i < fields@.len(),
                    names@.len() == i,
                    name@ == norm_ident(fields@[i as int].ident@),
                    forall|k: int| 0 <= k < i ==> (#[trigger] names@[k])@ == norm_ident(fields@[k].ident@),
                    forall|k: int| 0 <= k < j ==> norm_ident(#[trigger] fields@[k].ident@) != name@,
                decreases i - j,
            {
                if names[j] == name {
                    assert(names@[j as int]@ == norm_ident(fields@[j as int].ident@));
                    return Err(BuilderError::DuplicateField { name });
                }
                j = j + 1;
            }
            names.push(name);
            i = i + 1;
        }
        Ok(BuilderGenCtx { builder_ident, type_params, fields })
    }

    /// The default answer for `f`.
    pub open spec fn default_into(&self, f: Field) -> bool {
        qualifies_for_into(eligibility_type(f), self.type_param_names())
    }

    /// The conversion answer for `f`, or `None` where its setting is redundant.
    pub open spec fn resolved_into(&self, f: Field) -> Option<bool> {
        into_answer(self.type_param_names(), f)
    }

    /// The setters and the output state tuple for `field`, one of this
    /// entity's fields.
    pub fn setter_methods_impls_for_field(&self, field: &Field) -> (r: Result<FieldSetterImpl, BuilderError>)
        requires
            self.wf(),
            exists|i: int| 0 <= i < self.fields@.len() && self.fields@[i] == *field,
        ensures
            match self.resolved_into(*field) {
                Some(v) => r matches Ok(imp) && is_setter_impl(imp, self.builder_ident@, self.fields@, *field, v),
                None => r matches Err(e) && is_redundant_into(e, *field, self.default_into(*field)),
            },
    {
        let mut output_states: Vec<StateMarker> = Vec::new();
        let mut i: usize = 0;
        while i < self.fields.len()
            invariant
                i <= self.fields@.len(),
                output_states@ == output_states_spec(self.fields@, field.ident@).subrange(0, i as int),
            decreases self.fields.len() - i,
        {
            let marker = if self.fields[i].ident == field.ident {
                StateMarker::Supplied
            } else {
                StateMarker::Current
            };
            output_states.push(marker);
            i = i + 1;
        }
        assert(output_states@ == output_states_spec(self.fields@, field.ident@));
        let alias_ident = String::from_str("__").concat(self.builder_ident.as_str()).concat("Set").concat(
            field.state_assoc_ident.as_str(),
        );
        let methods = FieldSettersCtx::new(self, field).setter_methods()?;
        Ok(FieldSetterImpl {
            alias_ident,
            alias_has_state_param: self.fields.len() > 1,
            output_states,
            methods,
        })
    }

    /// The default conversion rule, in the scope of this entity's generics.
    pub fn type_qualifies_for_into(&self, ty: &TypeExpr) -> (r: bool)
        ensures
            r == qualifies_for_into(*ty, self.type_param_names()),
    {
        type_qualifies_for_into(ty, &self.type_params)
    }

    /// Whether the setters of `field` accept convertible values, judged on
    /// `ty`; an explicit setting wins only where it changes the default.
    pub fn field_qualifies_for_into(&self, field: &Field, ty: &TypeExpr) -> (r: Result<bool, BuilderError>)
        ensures
            match into_decision(field.into_override, qualifies_for_into(*ty, self.type_param_names())) {
                Some(v) => r == Ok::<bool, BuilderError>(v),
                None => r matches Err(e)
                    && is_redundant_into(e, *field, qualifies_for_into(*ty, self.type_param_names())),
            },
    {
        let default_value = self.type_qualifies_for_into(ty);
        match field.into_override {
            None => Ok(default_value),
            Some(override_value) => {
                if default_value != override_value {
                    Ok(override_value)
                } else {
                    Err(BuilderError::RedundantInto {
                        field: field.ident.clone(),
                        origin: field.origin,
                        already_qualifies: default_value,
                    })
                }
            },
        }
    }
}

/// The setters of one field of one entity.
pub struct FieldSettersCtx<'a> {
    pub builder_gen: &'a BuilderGenCtx,
    pub field: &'a Field,
    /// The field's user-facing name.
    pub norm_field_ident: String,
}

impl<'a> FieldSettersCtx<'a> {
    pub fn new(builder_gen: &'a BuilderGenCtx, field: &'a Field) -> (r: Self)
        ensures
            r.builder_gen == builder_gen,
            r.field == field,
            r.norm_field_ident@ == norm_ident(field.ident@),
    {
        FieldSettersCtx { builder_gen, field, norm_field_ident: normalized_ident(&field.ident) }
    }

    /// All setters of the field.
    pub fn setter_methods(&self) -> (r: Result<Vec<SetterMethod>, BuilderError>)
        requires
            self.norm_field_ident@ == norm_ident(self.field.ident@),
        ensures
            match self.builder_gen.resolved_into(*self.field) {
                Some(v) => r matches Ok(ms) && method_views(ms@) == expected_methods(*self.field, v),
                None => r matches Err(e)
                    && is_redundant_into(e, *self.field, self.builder_gen.default_into(*self.field)),
            },
    {
        if let Some(inner_type) = self.field.as_optional() {
            return self.setters_for_optional_field(inner_type);
        }
        let qualified_for_into = self.builder_gen.field_qualifies_for_into(self.field, &self.field.ty)?;
        let method = self.setter_method(
            FieldSetterMethod {
                method_name: self.norm_field_ident.clone(),
                kind: SetterKind::Required,
                into: qualified_for_into,
                overwrite_docs: None,
            },
        );
        let mut methods: Vec<SetterMethod> = Vec::new();
        methods.push(method);
        assert(method_views(methods@) =~= expected_methods(*self.field, qualified_for_into));
        Ok(methods)
    }

    /// The two setters of an optional field with inner type `inner_type`:
    /// the one taking an optional value, then the one taking a plain value.
    pub fn setters_for_optional_field(&self, inner_type: &TypeExpr) -> (r: Result<Vec<SetterMethod>, BuilderError>)
        requires
            self.norm_field_ident@ == norm_ident(self.field.ident@),
            self.field.optionality == Optionality::Optional(*inner_type),
        ensures
            match self.builder_gen.resolved_into(*self.field) {
                Some(v) => r matches Ok(ms) && method_views(ms@) == expected_methods(*self.field, v),
                None => r matches Err(e)
                    && is_redundant_into(e, *self.field, self.builder_gen.default_into(*self.field)),
            },
    {
        let qualified_for_into = self.builder_gen.field_qualifies_for_into(self.field, inner_type)?;
        let name = self.norm_field_ident.as_str();
        let docs = String::from_str("Same as [`Self::").concat(name).concat(
            "`], but accepts an `Option` as input. See that method's documentation for more details.",
        );
        let maybe_setter = self.setter_method(
            FieldSetterMethod {
                method_name: String::from_str("maybe_").concat(name),
                kind: SetterKind::OptionalMaybe,
                into: qualified_for_into,
                overwrite_docs: Some(docs),
            },
        );
        // The plain-value setter has the name and signature of a required
        // field's setter, so that making a required field optional does not
        // break existing callers.
        let setter = self.setter_method(
            FieldSetterMethod {
                method_name: self.norm_field_ident.clone(),
                kind: SetterKind::OptionalValue,
                into: qualified_for_into,
                overwrite_docs: None,
            },
        );
        let mut methods: Vec<SetterMethod> = Vec::new();
        methods.push(maybe_setter);
        methods.push(setter);
        assert(method_views(methods@) =~= expected_methods(*self.field, qualified_for_into));
        Ok(methods)
    }

    /// The setter described by `method`, documented by its own text if it
    /// has one, by the field's doc comment otherwise.
    pub fn setter_method(&self, method: FieldSetterMethod) -> (r: SetterMethod)
        ensures
            r.name == method.method_name,
            r.kind == method.kind,
            r.into == method.into,
            views(r.docs@) == match method.overwrite_docs {
                Some(d) => seq![d@],
                None => views(self.field.docs@),
            },
    {
        let FieldSetterMethod { method_name, kind, into, overwrite_docs } = method;
        let docs = match overwrite_docs {
            Some(d) => {
                let mut v: Vec<String> = Vec::new();
                v.push(d);
                assert(views(v@) =~= seq![d@]);
                v
            },
            None => clone_all(&self.field.docs),
        };
        SetterMethod { name: method_name, kind, into, docs }
    }
}

} // verus!
