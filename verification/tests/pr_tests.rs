use ceres::pr::{description_ok, render_collector_entry, render_pr_md, Pr};

fn sample_record() -> Pr {
    Pr {
        name: "weather".to_string(),
        description: "Collects weather data".to_string(),
        data_description: "CSV rows".to_string(),
        data_source: "Public sensors".to_string(),
        data_usefulness: "Forecast training".to_string(),
        code_explanation: "Reads and checks rows".to_string(),
        image_id: "abc123".to_string(),
        email: "dev@example.com".to_string(),
        source_code: "https://example.com/repo".to_string(),
    }
}

#[test]
fn description_length_bounds() {
    assert!(!description_ok(""));
    assert!(description_ok("a"));
    assert!(description_ok(&"a".repeat(280)));
    assert!(!description_ok(&"a".repeat(281)));
}

#[test]
fn submission_text_is_rendered_exactly() {
    let text = render_pr_md(&sample_record());
    assert_eq!(
        text,
        "# weather   \n\n\
         Image ID: abc123   \n\n\
         Contact email: dev@example.com   \n\n\
         ## Collector-verifier description:   \n\
         Collects weather data   \n\n\
         ## Data to be collected: type, structure, file format, size, etc.:   \n\
         CSV rows    \n\n\
         ## Data will be collected from:    \n\
         Public sensors    \n\n\
         ## This data is worth collecting because:   \n\
         Forecast training    \n\n\
         ## Explanation of code:    \n\
         Reads and checks rows    \n\n"
    );
}

#[test]
fn collector_entry_is_rendered_exactly() {
    let entry = render_collector_entry(&sample_record());
    assert_eq!(
        entry,
        "--- \n\n# weather \n**ID**:  \n**Image ID**: abc123\n**Source code**: https://example.com/repo\n**Full PR text**:  \n**Description**: Collects weather data"
    );
}
