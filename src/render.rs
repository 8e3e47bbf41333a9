use vstd::prelude::*;

use crate::Error;

verus! {

/// A top-level field of a parameter document: its name and its value as
/// serialized JSON.
#[derive(Debug)]
pub struct Field {
    pub name: String,
    pub value: String,
}

/// A field as a pair of name and serialized value.
pub open spec fn field_view(f: Field) -> (Seq<char>, Seq<char>) {
    (f.name@, f.value@)
}

pub open spec fn fields_view(fs: Seq<Field>) -> Seq<(Seq<char>, Seq<char>)> {
    fs.map_values(|f: Field| field_view(f))
}

/// Whether some field of `fs` is named `k`.
pub open spec fn has_name(fs: Seq<(Seq<char>, Seq<char>)>, k: Seq<char>) -> bool {
    exists|i: int| 0 <= i < fs.len() && fs[i].0 == k
}

/// The value that `overlay` gives to `k`, the last one if it names `k`
/// several times, or `default` if it does not name it.
pub open spec fn overlay_value(overlay: Seq<(Seq<char>, Seq<char>)>, k: Seq<char>, default: Seq<
    char,
>) -> Seq<char>
    decreases overlay.len(),
{
    if overlay.len() == 0 {
        default
    } else if overlay.last().0 == k {
        overlay.last().1
    } else {
        overlay_value(overlay.drop_last(), k, default)
    }
}

/// The overlay's fields that the package does not declare, in order.
pub open spec fn extras(defaults: Seq<(Seq<char>, Seq<char>)>, overlay: Seq<(Seq<char>, Seq<char>)>) -> Seq<
    (Seq<char>, Seq<char>),
>
    decreases overlay.len(),
{
    if overlay.len() == 0 {
        Seq::empty()
    } else if has_name(defaults, overlay.last().0) {
        extras(defaults, overlay.drop_last())
    } else {
        extras(defaults, overlay.drop_last()).push(overlay.last())
    }
}

/// The rendered parameter document: each field the package declares, in
/// the package's order, with the instance's value where it gives one; then
/// the instance's own fields that the package does not declare.
pub open spec fn spec_render(defaults: Seq<(Seq<char>, Seq<char>)>, overlay: Seq<(Seq<char>, Seq<char>)>) -> Seq<
    (Seq<char>, Seq<char>),
> {
    defaults.map_values(|p: (Seq<char>, Seq<char>)| (p.0, overlay_value(overlay, p.0, p.1))) + extras(
        defaults,
        overlay,
    )
}

fn value_for(overlay: &Vec<Field>, name: &String, default: &String) -> (r: String)
    ensures
        r@ == overlay_value(fields_view(overlay@), name@, default@),
{
    let ghost v = fields_view(overlay@);
    let mut i: usize = overlay.len();
    assert(v.take(i as int) =~= v);
    while i > 0
        invariant
            i <= overlay.len(),
            v == fields_view(overlay@),
            overlay_value(v, name@, default@) == overlay_value(v.take(i as int), name@, default@),
        decreases i,
    {
        proof {
            assert(v.take(i as int).drop_last() =~= v.take(i - 1));
            assert(v.take(i as int).last() == v[i - 1]);
        }
        i -= 1;
        if overlay[i].name == *name {
            return overlay[i].value.clone();
        }
    }
    assert(v.take(0) =~= Seq::<(Seq<char>, Seq<char>)>::empty());
    default.clone()
}

fn declares(defaults: &Vec<Field>, name: &String) -> (r: bool)
    ensures
        r == has_name(fields_view(defaults@), name@),
{
    let mut i: usize = 0;
    while i < defaults.len()
        invariant
            i <= defaults.len(),
            forall|t: int| 0 <= t < i ==> defaults@[t].name@ != name@,
        decreases defaults.len() - i,
    {
        if defaults[i].name == *name {
            assert(fields_view(defaults@)[i as int].0 == name@);
            return true;
        }
        i += 1;
    }
    false
}

/// Merges the instance's overlay parameters into the package's declared
/// parameters. A pure function of the two documents.
pub fn render(defaults: &Vec<Field>, overlay: &Vec<Field>) -> (r: Vec<Field>)
    ensures
        fields_view(r@) == spec_render(fields_view(defaults@), fields_view(overlay@)),
{
    let ghost d = fields_view(defaults@);
    let ghost o = fields_view(overlay@);
    let mut out: Vec<Field> = Vec::new();
    let mut i: usize = 0;
    while i < defaults.len()
        invariant
            i <= defaults.len(),
            d == fields_view(defaults@),
            o == fields_view(overlay@),
            fields_view(out@) =~= d.take(i as int).map_values(
                |p: (Seq<char>, Seq<char>)| (p.0, overlay_value(o, p.0, p.1)),
            ),
        decreases defaults.len() - i,
    {
        let f = &defaults[i];
        let value = value_for(overlay, &f.name, &f.value);
        let ghost before = out@;
        out.push(Field { name: f.name.clone(), value });
        proof {
            assert(out@ =~= before.push(out@.last()));
            assert(fields_view(out@) =~= fields_view(before).push(field_view(out@.last())));
            assert(d.take(i + 1) =~= d.take(i as int).push(d[i as int]));
        }
        i += 1;
    }
    assert(d.take(defaults.len() as int) =~= d);
    let ghost merged = fields_view(out@);
    let mut j: usize = 0;
    while j < overlay.len()
        invariant
            j <= overlay.len(),
            d == fields_view(defaults@),
            o == fields_view(overlay@),
            fields_view(out@) =~= merged + extras(d, o.take(j as int)),
        decreases overlay.len() - j,
    {
        proof {
            assert(o.take(j + 1).drop_last() =~= o.take(j as int));
            assert(o.take(j + 1).last() == o[j as int]);
        }
        let f = &overlay[j];
        if !declares(defaults, &f.name) {
            let ghost before = out@;
            out.push(Field { name: f.name.clone(), value: f.value.clone() });
            proof {
                assert(out@ =~= before.push(out@.last()));
                assert(fields_view(out@) =~= fields_view(before).push(field_view(out@.last())));
            }
        }
        j += 1;
    }
    assert(o.take(overlay.len() as int) =~= o);
    out
}

/// Renders from decoded inputs: the package's declared parameters as read
/// from its pack metadata, and the instance's overlay parameters as
/// serialized from its spec. A failure to obtain either is reported as such,
/// the metadata first.
pub fn render_document(
    metadata: core::result::Result<Vec<Field>, String>,
    overlay: core::result::Result<Vec<Field>, String>,
) -> (r: Result<Vec<Field>, Error>)
    ensures
        metadata matches Err(m) ==> (r matches Err(Error::DecodeKubecfgPackageMetadata(m2)) && m2
            == m),
        metadata is Ok ==> (overlay matches Err(m) ==> (r matches Err(Error::RenderOverlay(m2)) && m2
            == m)),
        metadata matches Ok(d) ==> (overlay matches Ok(o) ==> (r matches Ok(doc) && fields_view(doc@)
            == spec_render(fields_view(d@), fields_view(o@)))),
{
    let defaults = match metadata {
        Ok(d) => d,
        Err(m) => return Err(Error::DecodeKubecfgPackageMetadata(m)),
    };
    let params = match overlay {
        Ok(o) => o,
        Err(m) => return Err(Error::RenderOverlay(m)),
    };
    Ok(render(&defaults, &params))
}

/// Rendering is deterministic: documents that hold the same fields render
/// to the same document.
pub proof fn lemma_render_deterministic(
    defaults_a: Seq<Field>,
    overlay_a: Seq<Field>,
    defaults_b: Seq<Field>,
    overlay_b: Seq<Field>,
)
    requires
        fields_view(defaults_a) == fields_view(defaults_b),
        fields_view(overlay_a) == fields_view(overlay_b),
    ensures
        spec_render(fields_view(defaults_a), fields_view(overlay_a)) == spec_render(
            fields_view(defaults_b),
            fields_view(overlay_b),
        ),
{
}

} // verus!
