use vstd::prelude::*;

verus! {

/// One mesh vertex position. Coordinates are in hundredths of a world unit,
/// so that the generated environment is exact integer data.
#[derive(Debug, Clone, Copy, PartialEq, Eq, Structural)]
pub struct Vertex3 {
    pub x: i64,
    pub y: i64,
    pub z: i64,
}

/// One quad face, as four one-based vertex indices wound counter-clockwise.
#[derive(Debug, Clone, Copy, PartialEq, Eq, Structural)]
pub struct Face {
    pub a: u32,
    pub b: u32,
    pub c: u32,
    pub d: u32,
}

/// A generated mesh: vertex positions and quad faces over them. Texture
/// coordinates stay empty; the renderer derives them from positions.
pub struct Obj {
    pub vertices: Vec<Vertex3>,
    pub tex_coords: Vec<(i64, i64)>,
    pub faces: Vec<Face>,
}

/// Every face references only existing vertices, by one-based index.
pub open spec fn spec_faces_valid(faces: Seq<Face>, vertex_count: nat) -> bool {
    forall|i: int|
        0 <= i < faces.len() ==> {
            let f = #[trigger] faces[i];
            &&& 1 <= f.a <= vertex_count
            &&& 1 <= f.b <= vertex_count
            &&& 1 <= f.c <= vertex_count
            &&& 1 <= f.d <= vertex_count
        }
}

/// Turns four zero-based vertex indices into a quad face with the one-based
/// indices a mesh file uses.
pub fn indices_to_face(i0: u32, i1: u32, i2: u32, i3: u32) -> (f: Face)
    requires
        i0 < u32::MAX,
        i1 < u32::MAX,
        i2 < u32::MAX,
        i3 < u32::MAX,
    ensures
        f == (Face { a: (i0 + 1) as u32, b: (i1 + 1) as u32, c: (i2 + 1) as u32, d: (i3 + 1) as u32 }),
{
    Face { a: i0 + 1, b: i1 + 1, c: i2 + 1, d: i3 + 1 }
}

/// One wall of the environment: a segment from `start` to `end`, extruded
/// up to `height`. Coordinates in hundredths of a unit.
#[derive(Debug, Clone, Copy, PartialEq, Eq)]
pub struct Wall {
    pub start: (i64, i64),
    pub end: (i64, i64),
    pub height: i64,
}

/// Generates the gallery environment: a flat grid floor of `dims` cells
/// starting at `start`, one box of height 0.99 units over each podest
/// anchor, and one extruded quad per wall. Every face of the result indexes
/// an existing vertex.
pub fn generate_env(
    start: (i64, i64),
    dims: (u32, u32),
    podests: &Vec<(i64, i64)>,
    walls: &Vec<Wall>,
) -> (obj: Obj)
    requires
        ((dims.0 + 1) as int) * ((dims.1 + 1) as int) + 8 * podests@.len() + 8 * walls@.len()
            < u32::MAX,
        i64::MIN <= start.0 + 100 * ((dims.0 + 1) as int) <= i64::MAX,
        i64::MIN <= start.1 + 100 * ((dims.1 + 1) as int) <= i64::MAX,
        forall|p: int|
            0 <= p < podests@.len() ==> i64::MIN <= (#[trigger] podests@[p]).0 + 100 <= i64::MAX
                && i64::MIN <= podests@[p].1 + 100 <= i64::MAX,
    ensures
        obj.vertices@.len() == ((dims.0 + 1) as int) * ((dims.1 + 1) as int) + 8 * podests@.len()
            + 8 * walls@.len(),
        obj.faces@.len() == (dims.0 as int) * (dims.1 as int) + 5 * podests@.len() + 5
            * walls@.len(),
        obj.tex_coords@.len() == 0,
        spec_faces_valid(obj.faces@, obj.vertices@.len()),
{
    proof {
        assert((dims.0 + 1) as int <= ((dims.0 + 1) as int) * ((dims.1 + 1) as int)
            && (dims.1 + 1) as int <= ((dims.0 + 1) as int) * ((dims.1 + 1) as int)) by (
        nonlinear_arith)
            requires
                dims.0 >= 0 && dims.1 >= 0,
        ;
    }
    let mut vertices: Vec<Vertex3> = Vec::new();
    let cols = dims.0 + 1;
    let rows = dims.1 + 1;
    let ghost grid_count = (cols as int) * (rows as int);
    let mut z: u32 = 0;
    while z < rows
        invariant
            z <= rows,
            cols == dims.0 + 1,
            rows == dims.1 + 1,
            i64::MIN <= start.0 + 100 * (cols as int) <= i64::MAX,
            i64::MIN <= start.1 + 100 * (rows as int) <= i64::MAX,
            vertices@.len() == (z as int) * (cols as int),
        decreases rows - z,
    {
        let mut x: u32 = 0;
        while x < cols
            invariant
                x <= cols,
                z < rows,
                cols == dims.0 + 1,
                rows == dims.1 + 1,
                i64::MIN <= start.0 + 100 * (cols as int) <= i64::MAX,
                i64::MIN <= start.1 + 100 * (rows as int) <= i64::MAX,
                vertices@.len() == (z as int) * (cols as int) + x as int,
            decreases cols - x,
        {
            proof {
                assert(100 * (x as int) <= 100 * (cols as int)) by (nonlinear_arith)
                    requires
                        x <= cols,
                ;
                assert(100 * (z as int) <= 100 * (rows as int)) by (nonlinear_arith)
                    requires
                        z <= rows,
                ;
                assert(100 * (x as int) >= 0) by (nonlinear_arith)
                    requires
                        x >= 0,
                ;
                assert(100 * (z as int) >= 0) by (nonlinear_arith)
                    requires
                        z >= 0,
                ;
            }
            let vx = start.0 + 100 * (x as i64);
            let vz = start.1 + 100 * (z as i64);
            vertices.push(Vertex3 { x: vx, y: 0, z: vz });
            x = x + 1;
        }
        proof {
            assert((z as int) * (cols as int) + cols as int == ((z + 1) as int) * (cols as int))
                by (nonlinear_arith);
        }
        z = z + 1;
    }
    proof {
        assert((rows as int) * (cols as int) == (cols as int) * (rows as int)) by (
        nonlinear_arith);
        assert(vertices@.len() == grid_count);
        assert(grid_count >= 0) by (nonlinear_arith)
            requires
                grid_count == (cols as int) * (rows as int),
                cols >= 1,
                rows >= 1,
        ;
    }

    let tex_coords: Vec<(i64, i64)> = Vec::new();

    let mut faces: Vec<Face> = Vec::new();
    let w = dims.0 + 1;
    let mut fz: u32 = 0;
    while fz < dims.1
        invariant
            fz <= dims.1,
            w == dims.0 + 1,
            cols == dims.0 + 1,
            rows == dims.1 + 1,
            grid_count == (cols as int) * (rows as int),
            grid_count < u32::MAX,
            vertices@.len() == grid_count,
            faces@.len() == (fz as int) * (dims.0 as int),
            spec_faces_valid(faces@, vertices@.len()),
        decreases dims.1 - fz,
    {
        let mut fx: u32 = 0;
        while fx < dims.0
            invariant
                fx <= dims.0,
                fz < dims.1,
                w == dims.0 + 1,
                cols == dims.0 + 1,
                rows == dims.1 + 1,
                grid_count == (cols as int) * (rows as int),
                grid_count < u32::MAX,
                vertices@.len() == grid_count,
                faces@.len() == (fz as int) * (dims.0 as int) + fx as int,
                spec_faces_valid(faces@, vertices@.len()),
            decreases dims.0 - fx,
        {
            proof {
                assert((fx as int) + (fz as int) * (w as int) + w + 1 < grid_count) by (
                nonlinear_arith)
                    requires
                        grid_count == (cols as int) * (rows as int),
                        w == cols,
                        cols == dims.0 + 1,
                        rows == dims.1 + 1,
                        fx < dims.0,
                        fz < dims.1,
                        w >= 1,
                ;
            }
            let vidx = fx + fz * w;
            let f = indices_to_face(vidx, vidx + w, vidx + 1 + w, vidx + 1);
            faces.push(f);
            fx = fx + 1;
        }
        proof {
            assert((fz as int) * (dims.0 as int) + dims.0 as int == ((fz + 1) as int) * (dims.0
                as int)) by (nonlinear_arith);
        }
        fz = fz + 1;
    }
    proof {
        assert(faces@.len() == (dims.1 as int) * (dims.0 as int));
        assert((dims.1 as int) * (dims.0 as int) == (dims.0 as int) * (dims.1 as int)) by (
        nonlinear_arith);
    }

    let podest_count = podests.len();
    let mut p: usize = 0;
    while p < podest_count
        invariant
            p <= podest_count,
            podest_count == podests@.len(),
            grid_count < u32::MAX,
            ((dims.0 + 1) as int) * ((dims.1 + 1) as int) + 8 * podests@.len() + 8 * walls@.len()
                < u32::MAX,
            grid_count == ((dims.0 + 1) as int) * ((dims.1 + 1) as int),
            forall|q: int|
                0 <= q < podests@.len() ==> i64::MIN <= (#[trigger] podests@[q]).0 + 100
                    <= i64::MAX && i64::MIN <= podests@[q].1 + 100 <= i64::MAX,
            vertices@.len() == grid_count + 8 * p,
            faces@.len() == (dims.0 as int) * (dims.1 as int) + 5 * p,
            spec_faces_valid(faces@, vertices@.len()),
        decreases podest_count - p,
    {
        let podest = podests[p];
        let vidx = vertices.len() as u32;
        let mut bz: u32 = 0;
        while bz < 2
            invariant
                bz <= 2,
                p < podests@.len(),
                i64::MIN <= podest.0 + 100 <= i64::MAX,
                i64::MIN <= podest.1 + 100 <= i64::MAX,
                podest == podests@[p as int],
                vertices@.len() == vidx + 4 * (bz as int),
            decreases 2 - bz,
        {
            let mut bx: u32 = 0;
            while bx < 2
                invariant
                    bx <= 2,
                    bz < 2,
                    p < podests@.len(),
                    i64::MIN <= podest.0 + 100 <= i64::MAX,
                    i64::MIN <= podest.1 + 100 <= i64::MAX,
                    podest == podests@[p as int],
                    vertices@.len() == vidx + 4 * (bz as int) + 2 * (bx as int),
                decreases 2 - bx,
            {
                let px = if bx == 0 {
                    podest.0
                } else {
                    podest.0 + 100
                };
                let pz = if bz == 0 {
                    podest.1
                } else {
                    podest.1 + 100
                };
                vertices.push(Vertex3 { x: px, y: 0, z: pz });
                vertices.push(Vertex3 { x: px, y: 99, z: pz });
                bx = bx + 1;
            }
            bz = bz + 1;
        }
        proof {
            assert(vertices@.len() == vidx + 8);
        }
        faces.push(indices_to_face(vidx + 1, vidx + 5, vidx + 7, vidx + 3));
        faces.push(indices_to_face(vidx + 0, vidx + 1, vidx + 3, vidx + 2));
        faces.push(indices_to_face(vidx + 2, vidx + 3, vidx + 7, vidx + 6));
        faces.push(indices_to_face(vidx + 6, vidx + 7, vidx + 5, vidx + 4));
        faces.push(indices_to_face(vidx + 4, vidx + 5, vidx + 1, vidx + 0));
        p = p + 1;
    }

    let wall_count = walls.len();
    let mut wi: usize = 0;
    while wi < wall_count
        invariant
            wi <= wall_count,
            wall_count == walls@.len(),
            podest_count == podests@.len(),
            ((dims.0 + 1) as int) * ((dims.1 + 1) as int) + 8 * podests@.len() + 8 * walls@.len()
                < u32::MAX,
            grid_count == ((dims.0 + 1) as int) * ((dims.1 + 1) as int),
            vertices@.len() == grid_count + 8 * podests@.len() + 8 * wi,
            faces@.len() == (dims.0 as int) * (dims.1 as int) + 5 * podests@.len() + 5 * wi,
            spec_faces_valid(faces@, vertices@.len()),
        decreases wall_count - wi,
    {
        let wall = walls[wi];
        let vidx = vertices.len() as u32;
        let mut bz: u32 = 0;
        while bz < 2
            invariant
                bz <= 2,
                wi < walls@.len(),
                wall == walls@[wi as int],
                vertices@.len() == vidx + 4 * (bz as int),
            decreases 2 - bz,
        {
            let wz = if bz == 0 {
                wall.start.1
            } else {
                wall.end.1
            };
            let mut bx: u32 = 0;
            while bx < 2
                invariant
                    bx <= 2,
                    bz < 2,
                    wi < walls@.len(),
                    wall == walls@[wi as int],
                    vertices@.len() == vidx + 4 * (bz as int) + 2 * (bx as int),
                decreases 2 - bx,
            {
                let wx = if bx == 0 {
                    wall.start.0
                } else {
                    wall.end.0
                };
                vertices.push(Vertex3 { x: wx, y: 0, z: wz });
                vertices.push(Vertex3 { x: wx, y: wall.height, z: wz });
                bx = bx + 1;
            }
            bz = bz + 1;
        }
        proof {
            assert(vertices@.len() == vidx + 8);
        }
        faces.push(indices_to_face(vidx + 1, vidx + 5, vidx + 7, vidx + 3));
        faces.push(indices_to_face(vidx + 0, vidx + 1, vidx + 3, vidx + 2));
        faces.push(indices_to_face(vidx + 2, vidx + 3, vidx + 7, vidx + 6));
        faces.push(indices_to_face(vidx + 6, vidx + 7, vidx + 5, vidx + 4));
        faces.push(indices_to_face(vidx + 4, vidx + 5, vidx + 1, vidx + 0));
        wi = wi + 1;
    }

    Obj { vertices, tex_coords, faces }
}

/// The default gallery: a 20 by 20 unit floor around the origin, four
/// podests and one wall, with all coordinates in hundredths of a unit.
pub fn default_env() -> (obj: Obj)
    ensures
        obj.vertices@.len() == 21 * 21 + 8 * 4 + 8 * 1,
        obj.faces@.len() == 20 * 20 + 5 * 4 + 5 * 1,
        obj.tex_coords@.len() == 0,
        spec_faces_valid(obj.faces@, obj.vertices@.len()),
{
    let mut podests: Vec<(i64, i64)> = Vec::new();
    podests.push((-300, -100));
    podests.push((200, -100));
    podests.push((-300, -600));
    podests.push((200, -600));
    let mut walls: Vec<Wall> = Vec::new();
    walls.push(Wall { start: (620, 0), end: (600, -900), height: 300 });
    generate_env((-1000, -1000), (20, 20), &podests, &walls)
}

} // verus!
