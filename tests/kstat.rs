use swappy::kstat::{
    kstat_read_physmem, kstat_value_u64, KstatData, KstatError, NamedStat, PhysicalMemoryStats,
    StatField, StatValue,
};

fn stat(name: &str, value: StatValue) -> NamedStat {
    NamedStat { name: String::from(name), value }
}

fn full_record() -> Vec<NamedStat> {
    vec![
        stat("physmem", StatValue::UInt64(1000)),
        stat("nalloc", StatValue::Int32(-3)),
        stat("freemem", StatValue::UInt64(200)),
        stat("availrmem", StatValue::UInt64(300)),
        stat("crtime", StatValue::Text(String::from("x"))),
        stat("lotsfree", StatValue::UInt64(40)),
        stat("desfree", StatValue::UInt64(20)),
        stat("minfree", StatValue::UInt64(10)),
    ]
}

#[test]
fn decodes_all_six_counters() {
    let r = PhysicalMemoryStats::from_kstat(&KstatData::Named(full_record()));
    assert_eq!(
        r,
        Ok(PhysicalMemoryStats {
            physmem: 1000,
            freemem: 200,
            availrmem: 300,
            lotsfree: 40,
            desfree: 20,
            minfree: 10,
        })
    );
}

#[test]
fn no_matching_record_is_not_found() {
    assert_eq!(kstat_read_physmem(&Vec::new()), Err(KstatError::NotFound));
}

#[test]
fn two_matching_records_are_ambiguous() {
    let found = vec![KstatData::Named(full_record()), KstatData::Named(full_record())];
    assert_eq!(kstat_read_physmem(&found), Err(KstatError::Ambiguous));
}

#[test]
fn single_record_is_decoded() {
    let found = vec![KstatData::Named(full_record())];
    assert_eq!(kstat_read_physmem(&found).unwrap().freemem, 200);
}

#[test]
fn unnamed_record_has_wrong_shape() {
    assert_eq!(PhysicalMemoryStats::from_kstat(&KstatData::Other), Err(KstatError::WrongShape));
    assert_eq!(kstat_read_physmem(&vec![KstatData::Other]), Err(KstatError::WrongShape));
}

#[test]
fn first_missing_counter_is_reported() {
    let mut stats = full_record();
    stats.retain(|s| s.name != "lotsfree" && s.name != "minfree");
    assert_eq!(
        PhysicalMemoryStats::from_kstat(&KstatData::Named(stats)),
        Err(KstatError::MissingField(StatField::Lotsfree))
    );
    assert_eq!(
        PhysicalMemoryStats::from_kstat(&KstatData::Named(Vec::new())),
        Err(KstatError::MissingField(StatField::Physmem))
    );
}

#[test]
fn duplicate_counter_is_reported() {
    let mut stats = full_record();
    stats.push(stat("freemem", StatValue::UInt64(1)));
    assert_eq!(
        PhysicalMemoryStats::from_kstat(&KstatData::Named(stats)),
        Err(KstatError::DuplicateField(StatField::Freemem))
    );
}

#[test]
fn duplicate_is_found_before_type() {
    let mut stats = full_record();
    stats.push(stat("desfree", StatValue::Int64(1)));
    assert_eq!(
        PhysicalMemoryStats::from_kstat(&KstatData::Named(stats)),
        Err(KstatError::DuplicateField(StatField::Desfree))
    );
}

#[test]
fn wrong_type_is_reported() {
    let mut stats = full_record();
    stats[3] = stat("availrmem", StatValue::UInt32(300));
    assert_eq!(
        PhysicalMemoryStats::from_kstat(&KstatData::Named(stats)),
        Err(KstatError::TypeMismatch(StatField::Availrmem))
    );
}

#[test]
fn value_of_a_statistic() {
    let s = stat("physmem", StatValue::UInt64(7));
    assert_eq!(kstat_value_u64(StatField::Physmem, &s), Ok(7));
    let t = stat("physmem", StatValue::Char(vec![1, 2]));
    assert_eq!(kstat_value_u64(StatField::Physmem, &t), Err(KstatError::TypeMismatch(StatField::Physmem)));
}

#[test]
fn field_names() {
    assert_eq!(StatField::Physmem.name(), "physmem");
    assert_eq!(StatField::Availrmem.name(), "availrmem");
    assert_eq!(StatField::Minfree.name(), "minfree");
}

#[test]
fn repeated_readings_agree() {
    let found = vec![KstatData::Named(full_record())];
    assert_eq!(kstat_read_physmem(&found), kstat_read_physmem(&found));
}
