use nodeget::crontab_result_query::{plan_crontab_result_query, CrontabResultFilter, CrontabResultQueryCondition as C};

#[test]
fn plan_defaults_to_global_permission_and_default_limit() {
    let p = plan_crontab_result_query(&[C::IsSuccess, C::RunTimeFrom(5)], 500);
    assert_eq!(p.permission_names, vec!["*".to_owned()]);
    assert_eq!(p.limit, 1000);
    assert!(matches!(p.filters[0], CrontabResultFilter::Success(true)));
    assert!(matches!(p.filters[1], CrontabResultFilter::RunTimeFrom(5)));
    assert_eq!(p.filters.len(), 2);
}

#[test]
fn plan_distinct_cron_names_in_order() {
    let p = plan_crontab_result_query(
        &[C::CronName("b".to_owned()), C::CronName("a".to_owned()), C::CronName("b".to_owned()), C::Id(3)],
        500,
    );
    assert_eq!(p.permission_names, vec!["b".to_owned(), "a".to_owned()]);
    assert_eq!(p.filters.len(), 4);
}

#[test]
fn plan_limits() {
    assert_eq!(plan_crontab_result_query(&[C::Limit(20)], 500).limit, 20);
    assert_eq!(plan_crontab_result_query(&[C::Limit(20000)], 500).limit, 500);
    assert_eq!(plan_crontab_result_query(&[C::Limit(20), C::Limit(30)], 500).limit, 30);
    assert_eq!(plan_crontab_result_query(&[C::Limit(20), C::Last], 500).limit, 1);
    assert_eq!(plan_crontab_result_query(&[C::Last, C::Limit(20)], 500).limit, 1);
}

#[test]
fn plan_filters_in_order() {
    let p = plan_crontab_result_query(&[C::RunTimeFromTo(1, 2), C::IsFailure, C::CronId(4), C::RunTimeTo(9)], 10);
    assert!(matches!(p.filters[0], CrontabResultFilter::RunTimeBetween(1, 2)));
    assert!(matches!(p.filters[1], CrontabResultFilter::Success(false)));
    assert!(matches!(p.filters[2], CrontabResultFilter::CronId(4)));
    assert!(matches!(p.filters[3], CrontabResultFilter::RunTimeTo(9)));
}
