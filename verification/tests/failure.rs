use star_atlas::coordinates::SpaceCoordinates;
use star_atlas::failure::{ForestDefect, GeneratorFailure, PipelineError};

fn classes(error: PipelineError) -> (bool, bool, bool) {
    (error.blames_settings(), error.blames_place(), error.blames_generator())
}

#[test]
fn every_failure_falls_in_one_class() {
    assert_eq!(classes(PipelineError::InvalidSettings { violations: 2 }), (true, false, false));
    assert_eq!(
        classes(PipelineError::GalaxyIndexOutOfRange { index: 3, galaxies: 2 }),
        (true, false, false)
    );
    assert_eq!(
        classes(PipelineError::CoordinatesNotFound(SpaceCoordinates::new(1, 2, 3))),
        (false, true, false)
    );
    assert_eq!(classes(PipelineError::UnmappedGalaxy), (true, false, false));
    assert_eq!(classes(PipelineError::OpenLayer { layer: 0 }), (true, false, false));
    assert_eq!(
        classes(PipelineError::BrokenHierarchy(ForestDefect::UnphysicalStar)),
        (false, false, true)
    );
    assert_eq!(classes(PipelineError::CrowdedCluster { ranked: 256 }), (true, false, false));
    assert_eq!(classes(PipelineError::LevelNotFound(10)), (false, true, false));
    assert_eq!(classes(PipelineError::WrongCell { level: 0 }), (false, false, true));
    assert_eq!(
        classes(PipelineError::GenerationFailed(GeneratorFailure::InternalInvariant)),
        (false, false, true)
    );
    assert_eq!(
        classes(PipelineError::GenerationFailed(GeneratorFailure::InvalidCoordinates)),
        (false, false, true)
    );
    assert_eq!(
        classes(PipelineError::BrokenHierarchy(ForestDefect::DuplicateId)),
        (false, false, true)
    );
}
