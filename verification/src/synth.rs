use vstd::prelude::*;

use crate::manifest::{EnvConfig, Manifest};

verus! {

/// The fields handed to the template for one environment.
pub struct TemplateData {
    pub name: String,
    pub description: String,
    pub after: String,
    pub exec_start_pre: String,
    pub exec_start: String,
}

/// One synthesized unit: its file name and its rendered body.
pub struct RenderedUnit {
    pub unit_name: String,
    pub body: String,
}

/// Synthesis failure: the template engine refused the template text or
/// a render. One such failure aborts the whole run; no unit list is
/// produced.
#[derive(Clone, Copy, Debug, PartialEq, Eq, Structural)]
pub enum SynthError {
    Render,
}

/// The templates on which the engine's success and output depend on
/// the template text and the field values alone. Rendering walks a
/// hash map — whose iteration order varies from process to process —
/// only where a template loops over or filters a map value (a map
/// literal, or the engine's context dump), so ordinary unit-file
/// templates, plain text with field substitutions, all lie in this
/// set. Outside it the engine's output is no function of the
/// arguments, and nothing here says what it is.
pub uninterp spec fn render_pure(template: Seq<char>) -> bool;

/// What the template engine produces for a pure template and the five
/// field values.
pub uninterp spec fn render_of(
    template: Seq<char>,
    name: Seq<char>,
    description: Seq<char>,
    after: Seq<char>,
    exec_start_pre: Seq<char>,
    exec_start: Seq<char>,
) -> Seq<char>;

/// Whether the engine accepts a pure template with the five field
/// values: parses it and renders it without error.
pub uninterp spec fn render_ok(
    template: Seq<char>,
    name: Seq<char>,
    description: Seq<char>,
    after: Seq<char>,
    exec_start_pre: Seq<char>,
    exec_start: Seq<char>,
) -> bool;

#[verifier::external_type_specification]
#[verifier::external_body]
pub struct ExTeraError(tera::Error);

/// Relies on tera (`Tera::add_raw_template` and `Tera::render`):
/// rendering a raw template against the five fields. For a pure
/// template (see `render_pure`) both the outcome and the rendered
/// text are functions of the template text and the field values;
/// of other templates nothing is claimed.
#[verifier::external_body]
fn render_template(template: &str, data: &TemplateData) -> (r: Result<String, tera::Error>)
    ensures
        render_pure(template@) ==> (r is Ok <==> render_ok(
            template@,
            data.name@,
            data.description@,
            data.after@,
            data.exec_start_pre@,
            data.exec_start@,
        )),
        render_pure(template@) ==> (r matches Ok(s) ==> s@ == render_of(
            template@,
            data.name@,
            data.description@,
            data.after@,
            data.exec_start_pre@,
            data.exec_start@,
        )),
{
    let mut engine = tera::Tera::default();
    engine.add_raw_template("unit", template)?;
    let mut context = tera::Context::new();
    context.insert("name", data.name.as_str());
    context.insert("description", data.description.as_str());
    context.insert("after", data.after.as_str());
    context.insert("exec_start_pre", data.exec_start_pre.as_str());
    context.insert("exec_start", data.exec_start.as_str());
    engine.render("unit", &context)
}

/// The template fields for one environment: name and description are
/// both the environment name; the remaining three fields are fixed
/// placeholder text, not copied from the service declaration. Wiring
/// the declared `after` and exec lines through is left as an open
/// question rather than invented here.
pub fn template_data_for(name: &String) -> (r: TemplateData)
    ensures
        r.name@ == name@,
        r.description@ == name@,
        r.after@ == "unknown"@,
        r.exec_start_pre@ == "missing"@,
        r.exec_start@ == "missing"@,
{
    TemplateData {
        name: name.clone(),
        description: name.clone(),
        after: String::from_str("unknown"),
        exec_start_pre: String::from_str("missing"),
        exec_start: String::from_str("missing"),
    }
}

/// The unit-file name derived from an environment name.
pub open spec fn spec_unit_name(name: Seq<char>) -> Seq<char> {
    name + ".service"@
}

/// Derives the unit-file name `<name>.service` for an environment.
pub fn unit_file_name(name: &String) -> (r: String)
    ensures
        r@ == spec_unit_name(name@),
{
    name.clone().concat(".service")
}

/// The body synthesized for one environment: the template rendered
/// with the environment name and the fixed placeholders.
pub open spec fn spec_unit_body(template: Seq<char>, name: Seq<char>) -> Seq<char> {
    render_of(template, name, name, "unknown"@, "missing"@, "missing"@)
}

/// Whether one environment's render succeeds.
pub open spec fn spec_unit_ok(template: Seq<char>, name: Seq<char>) -> bool {
    render_ok(template, name, name, "unknown"@, "missing"@, "missing"@)
}

/// Whether every eligible environment of a manifest renders without
/// error.
pub open spec fn spec_all_render(template: Seq<char>, envs: Seq<(String, EnvConfig)>) -> bool {
    forall|j: int|
        0 <= j < envs.len() && has_service(#[trigger] envs[j]) ==> spec_unit_ok(
            template,
            envs[j].0@,
        )
}

/// Whether an environment is eligible for synthesis: only those with
/// a service declaration are; the others are silently skipped.
pub open spec fn has_service(e: (String, EnvConfig)) -> bool {
    e.1.service is Some
}

/// What synthesis writes: one (file name, body) pair per environment
/// with a service declaration, in manifest order; environments
/// without one produce nothing.
pub open spec fn spec_units(template: Seq<char>, envs: Seq<(String, EnvConfig)>) -> Seq<
    (Seq<char>, Seq<char>),
>
    decreases envs.len(),
{
    if envs.len() == 0 {
        Seq::empty()
    } else {
        let rest = spec_units(template, envs.drop_last());
        let last = envs.last();
        if has_service(last) {
            rest.push((spec_unit_name(last.0@), spec_unit_body(template, last.0@)))
        } else {
            rest
        }
    }
}

/// The unit-file names synthesis produces: one per environment with a
/// service declaration, in manifest order, whatever the engine makes
/// of the bodies.
pub open spec fn spec_unit_names(envs: Seq<(String, EnvConfig)>) -> Seq<Seq<char>>
    decreases envs.len(),
{
    if envs.len() == 0 {
        Seq::empty()
    } else {
        let rest = spec_unit_names(envs.drop_last());
        if has_service(envs.last()) {
            rest.push(spec_unit_name(envs.last().0@))
        } else {
            rest
        }
    }
}

/// The file-name view of a unit list.
pub open spec fn names_view(units: Seq<RenderedUnit>) -> Seq<Seq<char>> {
    units.map_values(|u: RenderedUnit| u.unit_name@)
}

/// The (file name, body) view of one synthesized unit.
pub open spec fn unit_view(u: RenderedUnit) -> (Seq<char>, Seq<char>) {
    (u.unit_name@, u.body@)
}

/// The (file name, body) view of a unit list.
pub open spec fn units_view(units: Seq<RenderedUnit>) -> Seq<(Seq<char>, Seq<char>)> {
    units.map_values(|u: RenderedUnit| unit_view(u))
}

/// Pairs an environment's rendered body with its unit-file name.
pub fn build_unit(name: &String, body: String) -> (r: RenderedUnit)
    ensures
        r.unit_name@ == spec_unit_name(name@),
        r.body@ == body@,
{
    let unit_name = unit_file_name(name);
    RenderedUnit { unit_name, body }
}

/// Synthesizes one unit per eligible environment of the manifest, in
/// manifest order. The file names are fixed outright; for a pure
/// template success holds exactly when every eligible environment
/// renders, and the units are then exactly those of `spec_units`. A
/// manifest with no eligible environment always succeeds. The whole
/// unit list is produced before the caller writes anything, so one
/// engine failure yields no units at all rather than a partial set.
pub fn synthesize(m: &Manifest, template: &str) -> (r: Result<Vec<RenderedUnit>, SynthError>)
    ensures
        r matches Ok(units) ==> names_view(units@) == spec_unit_names(m.envs@),
        render_pure(template@) ==> (r is Ok <==> spec_all_render(template@, m.envs@)),
        render_pure(template@) ==> (r matches Ok(units) ==> units_view(units@) == spec_units(
            template@,
            m.envs@,
        )),
        (forall|j: int| 0 <= j < m.envs@.len() ==> !has_service(#[trigger] m.envs@[j])) ==> r is Ok,
        r matches Err(e) ==> e == SynthError::Render,
{
    let mut units: Vec<RenderedUnit> = Vec::new();
    let mut i: usize = 0;
    while i < m.envs.len()
        invariant
            i <= m.envs@.len(),
            names_view(units@) == spec_unit_names(m.envs@.subrange(0, i as int)),
            render_pure(template@) ==> units_view(units@) == spec_units(
                template@,
                m.envs@.subrange(0, i as int),
            ),
            render_pure(template@) ==> (forall|j: int|
                0 <= j < i && has_service(#[trigger] m.envs@[j]) ==> spec_unit_ok(
                    template@,
                    m.envs@[j].0@,
                )),
        decreases m.envs@.len() - i,
    {
        let entry = &m.envs[i];
        if entry.1.service.is_some() {
            let data = template_data_for(&entry.0);
            let body = match render_template(template, &data) {
                Ok(s) => s,
                Err(_) => {
                    proof {
                        assert(has_service(m.envs@[i as int]));
                        if render_pure(template@) {
                            assert(!spec_unit_ok(template@, m.envs@[i as int].0@));
                            assert(!spec_all_render(template@, m.envs@));
                        }
                    }
                    return Err(SynthError::Render);
                },
            };
            let unit = build_unit(&entry.0, body);
            units.push(unit);
        }
        proof {
            let prefix = m.envs@.subrange(0, i + 1);
            assert(prefix.drop_last() =~= m.envs@.subrange(0, i as int));
            assert(prefix.last() == m.envs@[i as int]);
            assert(names_view(units@) =~= spec_unit_names(prefix));
            if render_pure(template@) {
                assert(units_view(units@) =~= spec_units(template@, prefix));
            }
        }
        i = i + 1;
    }
    proof {
        assert(m.envs@.subrange(0, m.envs@.len() as int) =~= m.envs@);
    }
    Ok(units)
}

/// The version gate is advisory: synthesis reads only the
/// environments, so two manifests with the same environments
/// synthesize the same units, whatever their versions say.
pub proof fn lemma_version_is_advisory(template: Seq<char>, a: Manifest, b: Manifest)
    requires
        a.envs == b.envs,
    ensures
        spec_units(template, a.envs@) == spec_units(template, b.envs@),
{
}

/// Exactly the environments with a service declaration produce units:
/// one file name, and one unit, per such environment, none for the
/// others.
pub proof fn lemma_one_unit_per_service(template: Seq<char>, envs: Seq<(String, EnvConfig)>)
    ensures
        spec_unit_names(envs).len() == envs.filter(|e: (String, EnvConfig)| has_service(e)).len(),
        spec_units(template, envs).len() == spec_unit_names(envs).len(),
    decreases envs.len(),
{
    reveal(Seq::filter);
    if envs.len() == 0 {
    } else {
        lemma_one_unit_per_service(template, envs.drop_last());
    }
}

/// Re-running synthesis on an unchanged manifest and a pure template
/// yields byte-identical units: the synthesized units are a function
/// of the template text and the environments alone. Templates outside
/// `render_pure` — those that walk a map value — are left out, since
/// of them the engine itself promises no one result.
pub proof fn lemma_synthesis_idempotent(
    template: Seq<char>,
    envs: Seq<(String, EnvConfig)>,
    first: Seq<(Seq<char>, Seq<char>)>,
    second: Seq<(Seq<char>, Seq<char>)>,
)
    requires
        render_pure(template),
        first == spec_units(template, envs),
        second == spec_units(template, envs),
    ensures
        first == second,
{
}

/// The service declaration's field values never reach the output:
/// what is synthesized depends only on each environment's name and on
/// whether it declares a service at all.
pub proof fn lemma_service_fields_ignored(
    template: Seq<char>,
    a: Seq<(String, EnvConfig)>,
    b: Seq<(String, EnvConfig)>,
)
    requires
        a.len() == b.len(),
        forall|j: int|
            0 <= j < a.len() ==> (#[trigger] a[j]).0@ == (#[trigger] b[j]).0@ && (has_service(a[j])
                <==> has_service(b[j])),
    ensures
        spec_units(template, a) == spec_units(template, b),
        spec_unit_names(a) == spec_unit_names(b),
    decreases a.len(),
{
    if a.len() > 0 {
        lemma_service_fields_ignored(template, a.drop_last(), b.drop_last());
    }
}

} // verus!
