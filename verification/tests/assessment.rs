use auth_core::assessment::{
    create, get_all, get_one, update, Assessment, AssessmentAtrritbutes,
    AssessmentCreationRequest, PathObject, Query, ResTemp,
};
use auth_core::error::AppError;
use auth_core::middleware::RequestContext;

#[test]
fn listing_needs_an_identity() {
    assert_eq!(get_all(None), Err(AppError::Unauthorized));
    assert_eq!(get_all(Some(RequestContext { user_id: 3 })), Ok(Query::ByUser { user_id: 3 }));
}

#[test]
fn creation_answers_with_the_list() {
    assert_eq!(create(None), Err(AppError::Unauthorized));
    assert_eq!(create(Some(RequestContext { user_id: 3 })), Ok(Query::ByUser { user_id: 3 }));
}

#[test]
fn reading_is_bound_to_the_user() {
    assert_eq!(get_one(11, None), Err(AppError::Unauthorized));
    assert_eq!(
        get_one(11, Some(RequestContext { user_id: 3 })),
        Ok(Query::ByAssessmentId { assessment_id: 11, user_id: 3 })
    );
}

#[test]
fn update_needs_an_identity() {
    let path = PathObject::new(11);
    assert_eq!(
        update(None, &path, AssessmentAtrritbutes::Started(true), 5),
        Err(AppError::Unauthorized)
    );
}

#[test]
fn started_sets_the_start_time() {
    let path = PathObject::new(11);
    let context = Some(RequestContext { user_id: 3 });
    assert_eq!(
        update(context, &path, AssessmentAtrritbutes::Started(true), 1_700_000_000),
        Ok(Query::UpdateStartTime { assessment_id: 11, user_id: 3, at: 1_700_000_000 })
    );
    assert_eq!(
        update(context, &path, AssessmentAtrritbutes::Started(false), 1_700_000_000),
        Ok(Query::UpdateStartTime { assessment_id: 11, user_id: 3, at: 1_700_000_000 })
    );
}

#[test]
fn finished_sets_the_end_time() {
    let path = PathObject::new(11);
    let context = Some(RequestContext { user_id: 3 });
    assert_eq!(
        update(context, &path, AssessmentAtrritbutes::Finished(true), 1_700_000_000),
        Ok(Query::UpdateEndTime { assessment_id: 11, user_id: 3, at: 1_700_000_000 })
    );
}

#[test]
fn time_column_keeps_the_low_bits() {
    let path = PathObject::new(1);
    let context = Some(RequestContext { user_id: 3 });
    assert_eq!(
        update(context, &path, AssessmentAtrritbutes::Started(true), i32::MAX as i64),
        Ok(Query::UpdateStartTime { assessment_id: 1, user_id: 3, at: i32::MAX })
    );
    assert_eq!(
        update(context, &path, AssessmentAtrritbutes::Started(true), i32::MAX as i64 + 1),
        Ok(Query::UpdateStartTime { assessment_id: 1, user_id: 3, at: i32::MIN })
    );
    assert_eq!(
        update(context, &path, AssessmentAtrritbutes::Started(true), -1),
        Ok(Query::UpdateStartTime { assessment_id: 1, user_id: 3, at: -1 })
    );
}

#[test]
fn path_names_its_assessment() {
    assert_eq!(PathObject::new(11).assessment_id(), 11);
    assert_eq!(PathObject::new(-4).assessment_id(), -4);
}

#[test]
fn plain_types_hold_what_they_are_given() {
    let row = Assessment { id: 1, user_id: 2, started_at: Some(3), updated_at: None };
    assert_eq!(row.started_at, Some(3));
    assert_eq!(row.updated_at, None);
    let body = AssessmentCreationRequest { topics: vec!["sets".to_string()] };
    assert_eq!(body.topics.len(), 1);
    assert_eq!(ResTemp, ResTemp);
}
