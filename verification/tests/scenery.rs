use raytracer::scenery::Scenery;

#[test]
fn catalog_lists_every_scene_once() {
    let catalog = Scenery::all();
    assert_eq!(catalog.len(), 20);

    let mut names: Vec<&str> = catalog.iter().map(|(name, _)| name.as_str()).collect();
    names.sort_unstable();
    let mut deduped = names.clone();
    deduped.dedup();
    assert_eq!(names, deduped, "scene names must be unique");
}

#[test]
fn catalog_maps_names_to_variants() {
    let catalog = Scenery::all();
    let find = |name: &str| -> Scenery {
        catalog
            .iter()
            .find(|(n, _)| n == name)
            .map(|(_, s)| *s)
            .expect("scene name missing")
    };

    assert_eq!(find("lambertian_diffuse"), Scenery::LambertianDiffuse);
    assert_eq!(find("metal"), Scenery::Metal);
    assert_eq!(find("dielectric"), Scenery::Dielectric);
    assert_eq!(find("cornell_box"), Scenery::CornellBox);
    assert_eq!(find("smoke_and_fog"), Scenery::SmokeAndFog);
    assert_eq!(find("final_rest_of_your_life"), Scenery::FinalRestOfYourLife);
}
