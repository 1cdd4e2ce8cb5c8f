use gears::annotation::BindgenStruct;
use gears::host::host_type;
use gears::layout::{block_layout, round_up_to, GlslType};
use gears::stage::ModuleType;

#[test]
fn type_sizes_and_alignments() {
    let all = [
        (GlslType::Float, "float", 4, 4, 4, 1),
        (GlslType::Int, "int", 4, 4, 4, 1),
        (GlslType::UInt, "uint", 4, 4, 4, 1),
        (GlslType::Vec2, "vec2", 8, 8, 8, 1),
        (GlslType::Vec3, "vec3", 12, 16, 12, 1),
        (GlslType::Vec4, "vec4", 16, 16, 16, 1),
        (GlslType::Mat2, "mat2", 32, 16, 16, 2),
        (GlslType::Mat3, "mat3", 48, 16, 36, 3),
        (GlslType::Mat4, "mat4", 64, 16, 64, 4),
    ];
    for (ty, name, size, align, packed, slots) in all {
        assert_eq!(ty.name(), name);
        assert_eq!(GlslType::from_name(name), Some(ty));
        assert_eq!(ty.size(), size);
        assert_eq!(ty.align(), align);
        assert_eq!(ty.packed_size(), packed);
        assert_eq!(ty.slots(), slots);
        assert_eq!(ty.is_matrix(), slots > 1);
    }
    assert_eq!(GlslType::from_name("double"), None);
}

#[test]
fn rounding_up() {
    assert_eq!(round_up_to(0, 16), Some(0));
    assert_eq!(round_up_to(5, 0), Some(5));
    assert_eq!(round_up_to(5, 1), Some(5));
    assert_eq!(round_up_to(5, 4), Some(8));
    assert_eq!(round_up_to(1, 16), Some(16));
    assert_eq!(round_up_to(16, 16), Some(16));
    assert_eq!(round_up_to(17, 16), Some(32));
    assert_eq!(round_up_to(usize::MAX, 16), None);
    assert_eq!(round_up_to(usize::MAX - 15, 16), Some(usize::MAX - 15));
}

#[test]
fn empty_block_layout() {
    let layout = block_layout(&Vec::new()).unwrap();
    assert!(layout.offsets.is_empty());
    assert_eq!(layout.size, 0);
}

#[test]
fn block_of_matrices_and_a_vector() {
    let types = vec![GlslType::Mat4, GlslType::Mat4, GlslType::Mat4, GlslType::Vec3];
    let layout = block_layout(&types).unwrap();
    assert_eq!(layout.offsets, vec![0, 64, 128, 192]);
    assert_eq!(layout.size, 208);
}

#[test]
fn block_with_gaps() {
    let types = vec![GlslType::Float, GlslType::Vec4, GlslType::Float, GlslType::Vec4];
    let layout = block_layout(&types).unwrap();
    assert_eq!(layout.offsets, vec![0, 16, 32, 48]);
    assert_eq!(layout.size, 64);
    let types = vec![GlslType::Vec3, GlslType::Float, GlslType::Vec2, GlslType::Float];
    let layout = block_layout(&types).unwrap();
    assert_eq!(layout.offsets, vec![0, 12, 16, 24]);
    assert_eq!(layout.size, 32);
}

#[test]
fn offsets_never_decrease() {
    let types = vec![
        GlslType::Float,
        GlslType::Vec2,
        GlslType::Mat3,
        GlslType::Int,
        GlslType::Vec3,
        GlslType::UInt,
        GlslType::Mat2,
    ];
    let layout = block_layout(&types).unwrap();
    let mut sum = 0;
    for i in 0..types.len() {
        if i > 0 {
            assert!(layout.offsets[i - 1] + types[i - 1].size() <= layout.offsets[i]);
        }
        assert_eq!(layout.offsets[i] % types[i].align(), 0);
        sum += types[i].size();
    }
    assert_eq!(layout.offsets, vec![0, 8, 16, 64, 80, 92, 96]);
    assert_eq!(layout.size, 128);
    assert_eq!(layout.size % 16, 0);
    assert!(sum <= layout.size);
}

#[test]
fn full_width_block_has_the_size_of_its_members() {
    let types = vec![GlslType::Vec4, GlslType::Mat4, GlslType::Mat2, GlslType::Mat3];
    let layout = block_layout(&types).unwrap();
    assert_eq!(layout.offsets, vec![0, 16, 80, 112]);
    assert_eq!(layout.size, 16 + 64 + 32 + 48);
}

#[test]
fn host_layout_of_a_uniform_block() {
    let text = "#[gears_bindgen(uniform(binding = 0))]\nstruct UBO { float time; vec4 tint; mat4 mvp; } ubo;";
    let block = BindgenStruct::parse(text, ModuleType::Vertex).unwrap();
    assert_eq!(
        block.types(),
        vec![GlslType::Float, GlslType::Vec4, GlslType::Mat4]
    );
    let layout = block.host_layout().unwrap();
    assert_eq!(layout.name, "UBO");
    assert!(layout.uniform);
    assert_eq!(layout.size, 96);
    assert_eq!(layout.fields.len(), 3);
    assert_eq!(layout.fields[0].name, "time");
    assert_eq!(layout.fields[0].ty, GlslType::Float);
    assert_eq!((layout.fields[0].offset, layout.fields[0].size, layout.fields[0].gap), (0, 4, 0));
    assert_eq!(layout.fields[1].name, "tint");
    assert_eq!((layout.fields[1].offset, layout.fields[1].size, layout.fields[1].gap), (16, 16, 12));
    assert_eq!(layout.fields[2].name, "mvp");
    assert_eq!((layout.fields[2].offset, layout.fields[2].size, layout.fields[2].gap), (32, 64, 0));
}

#[test]
fn host_type_declarations() {
    let text = "#[gears_bindgen(uniform(binding = 0))]\nstruct UBO { float time; vec4 tint; mat4 mvp; } ubo;";
    let layout = BindgenStruct::parse(text, ModuleType::Vertex).unwrap().host_layout().unwrap();
    assert_eq!(layout.tail(), 0);
    assert_eq!(
        layout.to_rust(),
        "#[repr(C)]\n#[derive(Debug, Clone, Copy, PartialEq)]\npub struct UBO {\n    pub time: f32,\n    pub _pad1: [u8; 12],\n    pub tint: [f32; 4],\n    pub mvp: [[f32; 4]; 4],\n}\n"
    );
    let text = "#[gears_bindgen(uniform(binding = 0))]\nstruct Light { mat3 basis; vec3 dir; } light;";
    let layout = BindgenStruct::parse(text, ModuleType::Vertex).unwrap().host_layout().unwrap();
    assert_eq!(layout.size, 64);
    assert_eq!(layout.tail(), 4);
    assert_eq!(
        layout.to_rust(),
        "#[repr(C)]\n#[derive(Debug, Clone, Copy, PartialEq)]\npub struct Light {\n    pub basis: [[f32; 4]; 3],\n    pub dir: [f32; 3],\n    pub _tail: [u8; 4],\n}\n"
    );
    let text = "#[gears_bindgen(in)]\nstruct V { mat3 basis; mat2 m; int id; } v;";
    let layout = BindgenStruct::parse(text, ModuleType::Vertex).unwrap().host_layout().unwrap();
    assert_eq!(layout.size, 56);
    assert_eq!(
        layout.to_rust(),
        "#[repr(C)]\n#[derive(Debug, Clone, Copy, PartialEq)]\npub struct V {\n    pub basis: [[f32; 3]; 3],\n    pub m: [[f32; 2]; 2],\n    pub id: i32,\n}\n"
    );
    let text = "#[gears_bindgen(out)]\nstruct Empty { } e;";
    let layout = BindgenStruct::parse(text, ModuleType::Vertex).unwrap().host_layout().unwrap();
    assert_eq!(layout.size, 0);
    assert_eq!(
        layout.to_rust(),
        "#[repr(C)]\n#[derive(Debug, Clone, Copy, PartialEq)]\npub struct Empty {\n}\n"
    );
}

#[test]
fn host_types() {
    assert_eq!(host_type(GlslType::Float, true), "f32");
    assert_eq!(host_type(GlslType::Int, false), "i32");
    assert_eq!(host_type(GlslType::UInt, true), "u32");
    assert_eq!(host_type(GlslType::Vec2, true), "[f32; 2]");
    assert_eq!(host_type(GlslType::Vec3, false), "[f32; 3]");
    assert_eq!(host_type(GlslType::Vec4, true), "[f32; 4]");
    assert_eq!(host_type(GlslType::Mat2, true), "[[f32; 4]; 2]");
    assert_eq!(host_type(GlslType::Mat2, false), "[[f32; 2]; 2]");
    assert_eq!(host_type(GlslType::Mat3, true), "[[f32; 4]; 3]");
    assert_eq!(host_type(GlslType::Mat3, false), "[[f32; 3]; 3]");
    assert_eq!(host_type(GlslType::Mat4, true), "[[f32; 4]; 4]");
    assert_eq!(host_type(GlslType::Mat4, false), "[[f32; 4]; 4]");
}

#[test]
fn host_layout_of_a_vertex() {
    let text = "#[gears_bindgen(in)]\nstruct VertexData { vec3 pos; vec3 norm; vec2 uv; } vert_in;";
    let block = BindgenStruct::parse(text, ModuleType::Vertex).unwrap();
    let layout = block.host_layout().unwrap();
    assert_eq!(layout.name, "VertexData");
    assert!(!layout.uniform);
    assert_eq!(layout.size, 32);
    let places: Vec<(usize, usize, usize)> =
        layout.fields.iter().map(|f| (f.offset, f.size, f.gap)).collect();
    assert_eq!(places, vec![(0, 12, 0), (12, 12, 0), (24, 8, 0)]);
}
