use rockwork::mesh::Mesh;

#[test]
fn it_works() {
    assert_eq!(2 + 2, 4);
}

#[test]
fn new_mesh_is_empty() {
    let mesh = Mesh::new(1, 2, 3);
    assert_eq!(mesh.vbo(), 1);
    assert_eq!(mesh.ibo(), 2);
    assert_eq!(mesh.vao(), 3);
    assert_eq!(mesh.nelems, 0);
}
