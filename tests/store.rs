use lorikeet_dash::chart::{join_commands, plot_frame};
use lorikeet_dash::smooth::catmull_segments;
use lorikeet_dash::schedule::{cycle_samples, Outcome};
use lorikeet_dash::store::ChartStore;
use lorikeet_dash::units::ChartUnits;

fn three() -> ChartStore<(i64, f64)> {
    let mut s = ChartStore::new();
    s.create("cpu".to_string(), ChartUnits::Value, false);
    s.create("mem".to_string(), ChartUnits::KiloBytes, false);
    s.create("web".to_string(), ChartUnits::Seconds, true);
    s
}

#[test]
fn store_lists_names_in_order() {
    let s = three();
    assert_eq!(s.len(), 3);
    assert_eq!(s.names(), vec!["cpu".to_string(), "mem".to_string(), "web".to_string()]);
}

#[test]
fn store_assigns_colours_round_robin() {
    let s = three();
    assert_eq!(s.charts[0].colour, "#99c1f1");
    assert_eq!(s.charts[1].colour, "#8ff0a4");
    assert_eq!(s.charts[2].colour, "#f9f06b");
}

#[test]
fn store_get_by_name() {
    let s = three();
    assert_eq!(s.get(&"mem".to_string()).map(|c| c.units), Some(ChartUnits::KiloBytes));
    assert!(s.get(&"disk".to_string()).is_none());
}

#[test]
fn store_records_cycle() {
    let mut s = three();
    s.record_cycle(vec![Some((10, 1.5)), None, Some((10, 0.25))]);
    s.record_cycle(vec![Some((20, 2.5))]);
    assert_eq!(s.charts[0].points, vec![(10, 1.5), (20, 2.5)]);
    assert!(s.charts[1].points.is_empty());
    assert_eq!(s.charts[2].points, vec![(10, 0.25)]);
    assert_eq!(s.names(), vec!["cpu".to_string(), "mem".to_string(), "web".to_string()]);
}

#[test]
fn failed_cycle_records_nothing() {
    let mut s = three();
    let outcomes = vec![Some(Outcome { parsed: Some(3.0), duration: 0.1 }); 3];
    let samples = cycle_samples(false, &outcomes);
    let points: Vec<Option<(i64, f64)>> = samples.iter().map(|o| o.map(|y| (5, y))).collect();
    s.record_cycle(points);
    assert!(s.charts.iter().all(|c| c.points.is_empty()));
}

#[test]
fn cpu_chart_scenario() {
    let mut s: ChartStore<(f64, f64)> = ChartStore::new();
    s.create("cpu".to_string(), ChartUnits::Value, false);
    for p in [(0.0, 10.0), (1.0, 20.0), (2.0, 15.0)] {
        s.record_cycle(vec![Some(p)]);
    }
    let chart = s.get(&"cpu".to_string()).expect("registered");
    assert!(!chart.needs_placeholder());
    assert_eq!(chart.colour, "#99c1f1");
    assert_eq!(chart.units, ChartUnits::Value);
    assert_eq!(catmull_segments(&chart.points).len(), 2);
    let lines: Vec<String> = chart.points[1..].iter().map(|p| format!("L {} {}", p.0, p.1)).collect();
    let path = join_commands(&lines);
    assert_eq!(path.matches('L').count(), 2);
    let f = plot_frame(800, 500, "20.00".len(), "10.00".len());
    assert_eq!((f.p_left, f.width, f.height), (50, 700, 400));
}
