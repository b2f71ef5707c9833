//! The catalog of demo scenes that the renderer can build.

use vstd::prelude::*;

verus! {

/// Scene types.
#[derive(Debug, Copy, Clone, PartialEq, Eq, Structural)]
pub enum Scenery {
    LambertianDiffuse,
    Metal,
    Dielectric,
    WideAngle,
    Telephoto,
    DefocusBlur,
    FinalOneWeekend,
    MotionBlur,
    CheckeredFloor,
    CheckeredSpheres,
    PerlinSpheres,
    Earth,
    SimpleLight,
    EmptyCornellBox,
    CornellBox,
    SmokeAndFog,
    FinalNextWeek,
    RotateSpheres,
    SpecularReflections,
    FinalRestOfYourLife,
}

/// The name under which each scene is selected, paired with its variant.
pub open spec fn spec_scenery_catalog() -> Seq<(Seq<char>, Scenery)> {
    seq![
        ("lambertian_diffuse"@, Scenery::LambertianDiffuse),
        ("metal"@, Scenery::Metal),
        ("dielectric"@, Scenery::Dielectric),
        ("telephoto"@, Scenery::Telephoto),
        ("wide_angle"@, Scenery::WideAngle),
        ("defocus_blur"@, Scenery::DefocusBlur),
        ("final_one_weekend"@, Scenery::FinalOneWeekend),
        ("motion_blur"@, Scenery::MotionBlur),
        ("checkered_floor"@, Scenery::CheckeredFloor),
        ("checkered_spheres"@, Scenery::CheckeredSpheres),
        ("perlin_spheres"@, Scenery::PerlinSpheres),
        ("earth"@, Scenery::Earth),
        ("simple_light"@, Scenery::SimpleLight),
        ("empty_cornell_box"@, Scenery::EmptyCornellBox),
        ("cornell_box"@, Scenery::CornellBox),
        ("smoke_and_fog"@, Scenery::SmokeAndFog),
        ("final_next_week"@, Scenery::FinalNextWeek),
        ("rotate_spheres"@, Scenery::RotateSpheres),
        ("specular_reflections"@, Scenery::SpecularReflections),
        ("final_rest_of_your_life"@, Scenery::FinalRestOfYourLife),
    ]
}

impl Scenery {
    /// Returns every scene paired with the name under which it is selected.
    pub fn all() -> (catalog: Vec<(String, Scenery)>)
        ensures
            catalog@.len() == spec_scenery_catalog().len(),
            forall|i: int|
                0 <= i < catalog@.len() ==> (#[trigger] catalog@[i]).0@
                    == spec_scenery_catalog()[i].0 && catalog@[i].1 == spec_scenery_catalog()[i].1,
    {
        let mut catalog: Vec<(String, Scenery)> = Vec::new();

        catalog.push(("lambertian_diffuse".to_owned(), Scenery::LambertianDiffuse));
        catalog.push(("metal".to_owned(), Scenery::Metal));
        catalog.push(("dielectric".to_owned(), Scenery::Dielectric));
        catalog.push(("telephoto".to_owned(), Scenery::Telephoto));
        catalog.push(("wide_angle".to_owned(), Scenery::WideAngle));
        catalog.push(("defocus_blur".to_owned(), Scenery::DefocusBlur));
        catalog.push(("final_one_weekend".to_owned(), Scenery::FinalOneWeekend));
        catalog.push(("motion_blur".to_owned(), Scenery::MotionBlur));
        catalog.push(("checkered_floor".to_owned(), Scenery::CheckeredFloor));
        catalog.push(("checkered_spheres".to_owned(), Scenery::CheckeredSpheres));
        catalog.push(("perlin_spheres".to_owned(), Scenery::PerlinSpheres));
        catalog.push(("earth".to_owned(), Scenery::Earth));
        catalog.push(("simple_light".to_owned(), Scenery::SimpleLight));
        catalog.push(("empty_cornell_box".to_owned(), Scenery::EmptyCornellBox));
        catalog.push(("cornell_box".to_owned(), Scenery::CornellBox));
        catalog.push(("smoke_and_fog".to_owned(), Scenery::SmokeAndFog));
        catalog.push(("final_next_week".to_owned(), Scenery::FinalNextWeek));
        catalog.push(("rotate_spheres".to_owned(), Scenery::RotateSpheres));
        catalog.push(("specular_reflections".to_owned(), Scenery::SpecularReflections));
        catalog.push(("final_rest_of_your_life".to_owned(), Scenery::FinalRestOfYourLife));

        catalog
    }
}

} // verus!
