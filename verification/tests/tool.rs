use lidar_batch::descriptor::{
    render_parameters, ParameterFileType, ParameterType, ToolParameter, VectorGeometryType,
};
use lidar_batch::tool::{PerimeterAreaRatio, ZlidarToLas};

fn parameter(name: &str, flags: &[&str], default_value: Option<&str>) -> ToolParameter {
    ToolParameter {
        name: name.to_string(),
        flags: flags.iter().map(|s| s.to_string()).collect(),
        description: String::new(),
        parameter_type: ParameterType::ExistingFile(ParameterFileType::Any),
        default_value: default_value.map(|s| s.to_string()),
        optional: true,
    }
}

#[test]
fn tool_names_itself() {
    let tool = ZlidarToLas::new("/home/user", "/home/user/whitebox_tools", '/');
    assert_eq!(tool.get_tool_name(), "ZlidarToLas");
    assert_eq!(tool.get_toolbox(), "LiDAR Tools");
    assert_eq!(
        tool.get_tool_description(),
        "Converts one or more zlidar files into the LAS data format."
    );
}

#[test]
fn usage_line_names_the_executable() {
    let tool = ZlidarToLas::new("/home/user", "/home/user/whitebox_tools", '/');
    assert_eq!(
        tool.get_example_usage(),
        ">>./whitebox_tools -r=ZlidarToLas -v --wd=\"/path/to/data/\" -i=\"file1.zlidar, file2.zlidar, file3.zlidar\""
    );
}

#[test]
fn usage_line_keeps_the_exe_suffix() {
    let tool = ZlidarToLas::new("C:\\tools", "C:\\tools\\whitebox_tools.exe", '\\');
    assert_eq!(
        tool.get_example_usage(),
        ">>.\\whitebox_tools.exe -r=ZlidarToLas -v --wd=\"\\path\\to\\data\\\" -i=\"file1.zlidar, file2.zlidar, file3.zlidar\""
    );
}

#[test]
fn usage_line_drops_dots_and_separators_of_the_executable() {
    let tool = ZlidarToLas::new("/opt", "/usr/local.d/bin/wb.tools", '/');
    assert_eq!(
        tool.get_example_usage(),
        ">>./usrlocaldbinwbtools -r=ZlidarToLas -v --wd=\"/path/to/data/\" -i=\"file1.zlidar, file2.zlidar, file3.zlidar\""
    );
}

#[test]
fn usage_line_with_an_empty_current_directory() {
    let tool = ZlidarToLas::new("", "wb", '/');
    assert_eq!(
        tool.get_example_usage(),
        ">>./wb -r=ZlidarToLas -v --wd=\"/path/to/data/\" -i=\"file1.zlidar, file2.zlidar, file3.zlidar\""
    );
}

#[test]
fn usage_line_replaces_every_asterisk() {
    let tool = ZlidarToLas::new("/x", "/x/w*b", '/');
    assert_eq!(
        tool.get_example_usage(),
        ">>./w/b -r=ZlidarToLas -v --wd=\"/path/to/data/\" -i=\"file1.zlidar, file2.zlidar, file3.zlidar\""
    );
}

#[test]
fn tool_parameters_as_json() {
    let tool = ZlidarToLas::new("/home/user", "/home/user/whitebox_tools", '/');
    assert_eq!(
        tool.get_tool_parameters(),
        "{\"parameters\": [{\"name\":\"Input ZLidar Files\",\"flags\":[\"-i\",\"--inputs\"],\"description\":\"Input ZLidar files.\",\"parameter_type\":{\"FileList\":\"Lidar\"},\"default_value\":null,\"optional\":false},{\"name\":\"Output Directory\",\"flags\":[\"--outdir\"],\"description\":\"Output directory into which zlidar files are created. If unspecified, it is assumed to be the same as the inputs.\",\"parameter_type\":\"Directory\",\"default_value\":null,\"optional\":true}]}"
    );
}

#[test]
fn no_parameters_render_as_an_empty_list() {
    assert_eq!(render_parameters(&Vec::new()), "{\"parameters\": []}");
}

#[test]
fn parameter_as_json() {
    let p = ToolParameter {
        name: "Output".to_string(),
        flags: vec!["-o".to_string(), "--output".to_string(), "--out".to_string()],
        description: "Where to write.".to_string(),
        parameter_type: ParameterType::NewFile(ParameterFileType::Raster),
        default_value: Some("out.tif".to_string()),
        optional: false,
    };
    assert_eq!(
        p.to_string(),
        "{\"name\":\"Output\",\"flags\":[\"-o\",\"--output\",\"--out\"],\"description\":\"Where to write.\",\"parameter_type\":{\"NewFile\":\"Raster\"},\"default_value\":\"out.tif\",\"optional\":false}"
    );
}

#[test]
fn parameter_kinds_as_json() {
    let mut p = parameter("n", &[], None);
    assert!(p.to_string().contains("\"flags\":[],"));
    assert!(p.to_string().contains("\"parameter_type\":{\"ExistingFile\":\"Any\"}"));
    p.parameter_type = ParameterType::FileList(ParameterFileType::Text);
    assert!(p.to_string().contains("\"parameter_type\":{\"FileList\":\"Text\"}"));
    p.parameter_type = ParameterType::Directory;
    assert!(p.to_string().contains("\"parameter_type\":\"Directory\","));
    assert!(p.to_string().ends_with("\"default_value\":null,\"optional\":true}"));
}

#[test]
fn json_strings_are_escaped() {
    let p = parameter("a\"b\\c\n\r\t\u{8}\u{c}\u{1}\u{1f}\u{7f}é", &["-\"x\""], Some("\u{0}"));
    let json = p.to_string();
    assert!(json.starts_with(
        "{\"name\":\"a\\\"b\\\\c\\n\\r\\t\\b\\f\\u0001\\u001f\u{7f}é\",\"flags\":[\"-\\\"x\\\"\"],"
    ));
    assert!(json.contains("\"default_value\":\"\\u0000\","));
}

#[test]
fn banner_frames_the_welcome_line() {
    let tool = ZlidarToLas::new("/home/user", "/home/user/whitebox_tools", '/');
    assert_eq!(
        tool.welcome_banner(),
        vec![
            "**************************".to_string(),
            "* Welcome to ZlidarToLas *".to_string(),
            "**************************".to_string()
        ]
    );
}

#[test]
fn shape_tool_names_itself() {
    let tool = PerimeterAreaRatio::new("/home/user", "/home/user/whitebox_tools", '/');
    assert_eq!(tool.get_tool_name(), "PerimeterAreaRatio");
    assert_eq!(tool.get_toolbox(), "GIS Analysis/Patch Shape Tools");
    assert_eq!(
        tool.get_tool_description(),
        "Calculates the perimeter-area ratio of vector polygons."
    );
}

#[test]
fn shape_tool_usage_line() {
    let tool = PerimeterAreaRatio::new("/home/user", "/home/user/whitebox_tools", '/');
    assert_eq!(
        tool.get_example_usage(),
        ">>./whitebox_tools -r=PerimeterAreaRatio -v --wd=\"/path/to/data/\" --input=polygons.shp"
    );
    let tool = PerimeterAreaRatio::new("C:\\tools", "C:\\tools\\wbt.exe", '\\');
    assert_eq!(
        tool.get_example_usage(),
        ">>.\\wbt.exe -r=PerimeterAreaRatio -v --wd=\"\\path\\to\\data\\\" --input=polygons.shp"
    );
}

#[test]
fn shape_tool_parameters_as_json() {
    let tool = PerimeterAreaRatio::new("/home/user", "/home/user/whitebox_tools", '/');
    assert_eq!(
        tool.get_tool_parameters(),
        "{\"parameters\": [{\"name\":\"Input Vector Polygon File\",\"flags\":[\"-i\",\"--input\"],\"description\":\"Input vector polygon file.\",\"parameter_type\":{\"ExistingFile\":{\"Vector\":\"Polygon\"}},\"default_value\":null,\"optional\":false}]}"
    );
}

#[test]
fn vector_file_types_as_json() {
    let mut p = parameter("n", &[], None);
    for (geometry, name) in [
        (VectorGeometryType::Any, "Any"),
        (VectorGeometryType::Point, "Point"),
        (VectorGeometryType::Line, "Line"),
        (VectorGeometryType::Polygon, "Polygon"),
        (VectorGeometryType::LineOrPolygon, "LineOrPolygon"),
    ] {
        p.parameter_type = ParameterType::NewFile(ParameterFileType::Vector(geometry));
        let expected = format!("\"parameter_type\":{{\"NewFile\":{{\"Vector\":\"{}\"}}}},", name);
        assert!(p.to_string().contains(&expected));
    }
    p.parameter_type = ParameterType::ExistingFile(ParameterFileType::Lidar);
    assert!(p.to_string().contains("\"parameter_type\":{\"ExistingFile\":\"Lidar\"},"));
}

#[test]
fn framed_banner_is_as_wide_as_the_welcome_line() {
    let tool = PerimeterAreaRatio::new("/home/user", "/home/user/whitebox_tools", '/');
    assert_eq!(
        tool.welcome_banner(),
        vec![
            "*********************************".to_string(),
            "* Welcome to PerimeterAreaRatio *".to_string(),
            "* Powered by WhiteboxTools      *".to_string(),
            "* www.whiteboxgeo.com           *".to_string(),
            "*********************************".to_string()
        ]
    );
}
